//! The requests to the metering portal and the reading of its replies, as
//! far as they are text: the caller sends and receives.

use vstd::prelude::*;
use vstd::string::StringExecFns;
use crate::amount::Amount;
use crate::models::MeasurementType;

verus! {

/// The status of a reply that carries data.
pub const STATUS_OK: u16 = 200;

/// The status of a reply that refuses the access token.
pub const STATUS_UNAUTHORIZED: u16 = 401;

/// Why a reply of the portal carries no data.
#[derive(Debug)]
pub enum FetchError {
    /// The portal refused the access token.
    Unauthorized,
    /// The portal answered with another status than success; this is what
    /// it said.
    Rejected(String),
}

/// The address from which the series of a metering point is fetched.
pub open spec fn spec_meter_data_url(
    base: Seq<char>,
    metering_point_code: Seq<char>,
    measurement_type: MeasurementType,
    start: Seq<char>,
    stop: Seq<char>,
    resolution: Seq<char>,
) -> Seq<char> {
    base + "meterdata2?meteringPointCode="@ + metering_point_code + "&measurementType="@ + (
    match measurement_type {
        MeasurementType::Consumption => "1"@,
        MeasurementType::Production => "6"@,
    }) + "&start="@ + start + "&stop="@ + stop + "&resultStep="@ + resolution
}

/// The address from which the series of a metering point is fetched: the
/// address `base` of the portal followed by the query for the metering point,
/// the direction, the interval and the resolution. Nothing is escaped.
pub fn meter_data_url(
    base: &str,
    metering_point_code: &str,
    measurement_type: MeasurementType,
    start: &str,
    stop: &str,
    resolution: &str,
) -> (url: String)
    ensures
        url@ == spec_meter_data_url(
            base@,
            metering_point_code@,
            measurement_type,
            start@,
            stop@,
            resolution@,
        ),
{
    let mut url: String = base.to_owned();
    url.append("meterdata2?meteringPointCode=");
    url.append(metering_point_code);
    url.append("&measurementType=");
    url.append(
        match measurement_type {
            MeasurementType::Consumption => "1",
            MeasurementType::Production => "6",
        },
    );
    url.append("&start=");
    url.append(start);
    url.append("&stop=");
    url.append(stop);
    url.append("&resultStep=");
    url.append(resolution);
    url
}

/// The address at which an access token is requested.
pub fn token_url(endpoint: &str) -> (url: String)
    ensures
        url@ == endpoint@ + "/wattivahti/token"@,
{
    let mut url: String = endpoint.to_owned();
    url.append("/wattivahti/token");
    url
}

/// Reads the status of a reply: the body is data only where the status is
/// success; a refused token is told apart from every other failure, whose
/// body is what the portal said.
pub fn classify_response(status: u16, body: String) -> (data: Result<String, FetchError>)
    ensures
        match data {
            Ok(text) => status == STATUS_OK && text@ == body@,
            Err(FetchError::Unauthorized) => status == STATUS_UNAUTHORIZED,
            Err(FetchError::Rejected(said)) => status != STATUS_OK && status
                != STATUS_UNAUTHORIZED && said@ == body@,
        },
{
    if status == STATUS_UNAUTHORIZED {
        Err(FetchError::Unauthorized)
    } else if status != STATUS_OK {
        Err(FetchError::Rejected(body))
    } else {
        Ok(body)
    }
}

/// The day-ahead price that a query of the price store gave: the first
/// value of the first series, and zero where there is none. A price that is
/// not stored is not an error.
pub fn day_ahead_price(series: &Vec<Vec<Amount>>) -> (price: Amount)
    ensures
        price == (if series@.len() > 0 && series@[0]@.len() > 0 {
            series@[0]@[0]
        } else {
            Amount { micros: 0 }
        }),
{
    if series.len() > 0 && series[0].len() > 0 {
        series[0][0]
    } else {
        Amount::from_micros(0)
    }
}

} // verus!
