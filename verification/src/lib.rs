//! Interval-timestamp reconstruction and tariff resolution for metered
//! electricity series.
//!
//! A metering portal reports consumption and production as series of
//! samples whose own timestamps cannot be trusted across daylight-saving
//! transitions. This library recomputes each sample's instant from the
//! series anchor and the sample's position, selects the pricing contract in
//! force at that instant and computes the fees that apply to it.
//!
//! Money, prices and quantities are fixed-point [`amount::Amount`]s and
//! instants are whole seconds ([`instant::UtcTime`]), so every result is an
//! exact function of its inputs.
//!
//! - [`time`] converts local timestamps of a named zone to UTC, and
//!   [`instant`] places a sample on the UTC time line by its position.
//! - [`models`] holds the payload of the portal and decodes a series.
//! - [`contract`] computes the fees of one contract, and [`contracts`]
//!   validates the windows of a list of contracts and finds the contract in
//!   force at an instant.
//! - [`enrich`] puts these together into the records that are stored.
//! - [`schedule`], [`auth`], [`endpoints`], [`portal`] and [`settings`] hold
//!   what the surrounding service decides and computes between its reads and
//!   writes.
//!
//! Nothing here reads a clock, a file or the network.

pub mod amount;
pub mod auth;
pub mod contract;
pub mod contracts;
pub mod endpoints;
pub mod enrich;
pub mod instant;
pub mod models;
pub mod portal;
pub mod resolution;
pub mod schedule;
pub mod settings;
pub mod text;
pub mod time;
