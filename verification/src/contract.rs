//! A pricing contract: the window of time it is in force and the fees it
//! sets.

use vstd::prelude::*;
use crate::amount::{amount_of, floor_div, Amount};
use crate::instant::UtcTime;
use crate::time::{local_to_utc, spec_local_to_utc, zone_local_hour, TimeParseError, Zone};

verus! {

/// The hour from which on the night tariff applies where a contract names
/// none.
pub const DEFAULT_NIGHT_START_HOUR: u32 = 22;

/// The hour before which the night tariff applies where a contract names
/// none.
pub const DEFAULT_NIGHT_END_HOUR: u32 = 7;

/// The tax percentage that applies where a contract names none, in
/// millionths of a percent: 24 %.
pub const DEFAULT_TAX_PERCENTAGE_MICROS: i64 = 24_000_000;

/// A hundred percent, in millionths of a percent.
pub const FULL_PERCENTAGE: i128 = 100_000_000;

/// How a contract prices energy.
#[derive(Clone, Copy, Debug, PartialEq, Eq, Structural)]
pub enum ContractType {
    /// Energy is not priced.
    Unpriced,
    /// A fixed fee by day and another by night.
    Fixed,
    /// The day-ahead spot price plus a margin.
    Spot,
    /// The fixed fees apply; the spot price is kept for information.
    Hybrid,
}

impl ContractType {
    /// The number under which the contract type is stored.
    pub open spec fn spec_code(self) -> i16 {
        match self {
            ContractType::Unpriced => 1,
            ContractType::Fixed => 2,
            ContractType::Spot => 3,
            ContractType::Hybrid => 4,
        }
    }

    /// The contract type that is stored under a number.
    pub open spec fn spec_from_code(code: i16) -> Option<ContractType> {
        if code == 1 {
            Some(ContractType::Unpriced)
        } else if code == 2 {
            Some(ContractType::Fixed)
        } else if code == 3 {
            Some(ContractType::Spot)
        } else if code == 4 {
            Some(ContractType::Hybrid)
        } else {
            None
        }
    }

    /// The number under which the contract type is stored.
    pub fn code(&self) -> (code: i16)
        ensures
            code == self.spec_code(),
    {
        match self {
            ContractType::Unpriced => 1,
            ContractType::Fixed => 2,
            ContractType::Spot => 3,
            ContractType::Hybrid => 4,
        }
    }

    /// The contract type that is stored under `code`, `None` where no type
    /// is stored under it.
    pub fn from_code(code: i16) -> (contract_type: Option<ContractType>)
        ensures
            contract_type == Self::spec_from_code(code),
    {
        if code == 1 {
            Some(ContractType::Unpriced)
        } else if code == 2 {
            Some(ContractType::Fixed)
        } else if code == 3 {
            Some(ContractType::Spot)
        } else if code == 4 {
            Some(ContractType::Hybrid)
        } else {
            None
        }
    }

    /// Every contract type is found again under its number, and no number
    /// stands for two types.
    pub proof fn lemma_code_round_trip(contract_type: ContractType, code: i16)
        ensures
            Self::spec_from_code(contract_type.spec_code()) == Some(contract_type),
            Self::spec_from_code(code) == Some(contract_type) ==> code
                == contract_type.spec_code(),
    {
    }
}

impl From<ContractType> for i16 {
    fn from(contract_type: ContractType) -> (code: i16) {
        contract_type.code()
    }
}

impl vstd::std_specs::convert::FromSpecImpl<ContractType> for i16 {
    open spec fn obeys_from_spec() -> bool {
        true
    }

    open spec fn from_spec(contract_type: ContractType) -> i16 {
        contract_type.spec_code()
    }
}

/// What a contract charges for energy.
#[derive(Clone, Copy, Debug, PartialEq, Eq, Structural)]
pub struct EnergyConfig {
    /// The hour from which on the night fee applies.
    pub night_start_hour: Option<u32>,
    /// The hour before which the night fee applies.
    pub night_end_hour: Option<u32>,
    /// The fee that is charged whatever is consumed.
    pub basic_fee: Amount,
    /// The fee by day of a fixed contract.
    pub day_fee: Option<Amount>,
    /// The fee by night of a fixed contract.
    pub night_fee: Option<Amount>,
    /// What a spot contract adds to the spot price.
    pub margin: Option<Amount>,
    /// Whether a negative spot price is passed on without tax.
    pub negative_no_tax: Option<bool>,
}

/// What a contract charges for the transfer of energy.
#[derive(Clone, Copy, Debug, PartialEq, Eq, Structural)]
pub struct TransferConfig {
    /// Carried with the configuration; no fee depends on it. Day and night
    /// are split by the hours of the [`EnergyConfig`] for every fee.
    pub night_start_hour: Option<u32>,
    /// Carried with the configuration; no fee depends on it.
    pub night_end_hour: Option<u32>,
    /// The fee that is charged whatever is transferred.
    pub basic_fee: Amount,
    /// The fee by day.
    pub day_fee: Amount,
    /// The fee by night.
    pub night_fee: Amount,
    /// The tax on transferred energy.
    pub tax_fee: Amount,
    /// Carried with the configuration; no fee depends on it.
    pub negative_no_tax: Option<bool>,
}

/// A field that a contract of its type must have and lacks.
#[derive(Clone, Copy, Debug, PartialEq, Eq, Structural)]
pub enum EnergyConfigError {
    /// A fixed contract without a day fee or without a night fee.
    MissingFixedFees,
    /// A spot contract without a margin.
    MissingSpotMargin,
}

impl EnergyConfigError {
    /// What is said of the missing field.
    pub open spec fn spec_message(self) -> Seq<char> {
        match self {
            EnergyConfigError::MissingFixedFees => {
                "For Fixed contract type, day_fee and night_fee are required"@
            },
            EnergyConfigError::MissingSpotMargin => {
                "For Spot contract type, margin is required"@
            },
        }
    }

    /// What is said of the missing field.
    pub fn message(&self) -> (text: String)
        ensures
            text@ == self.spec_message(),
    {
        match self {
            EnergyConfigError::MissingFixedFees => {
                "For Fixed contract type, day_fee and night_fee are required".to_owned()
            },
            EnergyConfigError::MissingSpotMargin => {
                "For Spot contract type, margin is required".to_owned()
            },
        }
    }
}

/// One tariff regime: from `start_time` to `end_time`, both included, or
/// without end where `end_time` is absent.
#[derive(Clone, Copy, Debug, PartialEq, Eq, Structural)]
pub struct ContractConfig {
    /// The first instant at which the contract is in force.
    pub start_time: UtcTime,
    /// The last instant at which the contract is in force.
    pub end_time: Option<UtcTime>,
    /// How energy is priced.
    pub contract_type: ContractType,
    /// The energy fees.
    pub energy: EnergyConfig,
    /// The transfer fees.
    pub transfer: TransferConfig,
    /// The tax on energy, in percent.
    pub tax_percentage: Option<Amount>,
}

/// Whether `hour` belongs to the night that lasts from `night_start` in the
/// evening until `night_end` in the morning: the hours before `night_end`
/// and those from `night_start` on.
pub open spec fn is_night_hour(hour: u32, night_start: Option<u32>, night_end: Option<u32>) -> bool {
    let start = match night_start {
        Some(h) => h,
        None => DEFAULT_NIGHT_START_HOUR,
    };
    let end = match night_end {
        Some(h) => h,
        None => DEFAULT_NIGHT_END_HOUR,
    };
    hour < end || hour >= start
}

/// The night includes the hour at which it starts and not the hour at which
/// it ends: every hour from the end up to the start is day, and with the
/// hours that apply where none are named the night lasts from 22 to 7.
pub proof fn lemma_night_boundaries(night_start: u32, night_end: u32, hour: u32)
    ensures
        is_night_hour(night_start, Some(night_start), Some(night_end)),
        night_end < night_start ==> !is_night_hour(night_end, Some(night_start), Some(night_end)),
        night_end <= hour < night_start ==> !is_night_hour(
            hour,
            Some(night_start),
            Some(night_end),
        ),
        hour < night_end || hour >= night_start ==> is_night_hour(
            hour,
            Some(night_start),
            Some(night_end),
        ),
        is_night_hour(hour, None, None) <==> hour < 7 || hour >= 22,
{
}

/// Decides whether `hour` belongs to the night; see [`is_night_hour`].
pub fn night_hour(hour: u32, night_start: Option<u32>, night_end: Option<u32>) -> (night: bool)
    ensures
        night == is_night_hour(hour, night_start, night_end),
{
    let start: u32 = match night_start {
        Some(h) => h,
        None => DEFAULT_NIGHT_START_HOUR,
    };
    let end: u32 = match night_end {
        Some(h) => h,
        None => DEFAULT_NIGHT_END_HOUR,
    };
    hour < end || hour >= start
}

/// The energy fee of a spot contract, in millionths: a tenth of the spot
/// price, raised by the tax percentage unless the price is negative and
/// exempt, plus the margin. The tenth turns EUR/MWh into cents per kWh.
/// Quotients are rounded towards negative infinity.
pub open spec fn spot_fee_micros(
    spot_price: int,
    tax_percentage: int,
    margin: int,
    exempt: bool,
) -> int {
    if exempt && spot_price < 0 {
        spot_price / 10 + margin
    } else {
        (spot_price * (FULL_PERCENTAGE + tax_percentage)) / (10 * FULL_PERCENTAGE) + margin
    }
}

/// The spot fee before the margin is the taxed tenth of the spot price
/// rounded down to the millionth: it is never above the exact value and less
/// than a millionth below it. Without tax it is the tenth of the price.
pub proof fn lemma_spot_fee_is_rounded_down(spot_price: int, tax_percentage: int, margin: int)
    ensures
        ({
            let fee = spot_fee_micros(spot_price, tax_percentage, margin, false) - margin;
            let exact = spot_price * (FULL_PERCENTAGE + tax_percentage);
            fee * (10 * FULL_PERCENTAGE) <= exact < (fee + 1) * (10 * FULL_PERCENTAGE)
        }),
        spot_price < 0 ==> ({
            let fee = spot_fee_micros(spot_price, tax_percentage, margin, true) - margin;
            fee * 10 <= spot_price < (fee + 1) * 10
        }),
        spot_price >= 0 ==> spot_fee_micros(spot_price, tax_percentage, margin, true)
            == spot_fee_micros(spot_price, tax_percentage, margin, false),
        spot_fee_micros(spot_price, 0, margin, false) == spot_price / 10 + margin,
{
    let exact = spot_price * (FULL_PERCENTAGE + tax_percentage);
    let whole: int = 10 * FULL_PERCENTAGE;
    lemma_floor_bounds(exact, whole);
    lemma_floor_bounds(spot_price, 10);
    assert(spot_price * (FULL_PERCENTAGE + 0) == spot_price * 100_000_000);
    lemma_scaled_quotient(spot_price, 10, 100_000_000);
}

/// A quotient rounded down, times the divisor, is the greatest multiple of
/// the divisor that is not above the dividend.
proof fn lemma_floor_bounds(n: int, d: int)
    by (nonlinear_arith)
    requires
        d > 0,
    ensures
        (n / d) * d <= n < (n / d + 1) * d,
{
}

/// Scaling dividend and divisor alike leaves the quotient as it is.
proof fn lemma_scaled_quotient(n: int, d: int, k: int)
    by (nonlinear_arith)
    requires
        d > 0,
        k > 0,
    ensures
        (n * k) / (d * k) == n / d,
{
}

/// The product of two numbers that fit in 64 bits fits in 127.
proof fn lemma_product_bound(a: int, b: int)
    by (nonlinear_arith)
    requires
        -0x8000_0000_0000_0000 <= a <= 0x8000_0000_0000_0000,
        -0x8000_0000_0800_0000 <= b <= 0x8000_0000_0800_0000,
    ensures
        -0x4000_0000_0400_0000_0000_0000_0000_0000 <= a * b
            <= 0x4000_0000_0400_0000_0000_0000_0000_0000,
{
}

impl ContractConfig {
    /// A contract in force from `start_time` to `end_time`.
    pub fn new(
        start_time: UtcTime,
        end_time: Option<UtcTime>,
        contract_type: ContractType,
        energy: EnergyConfig,
        transfer: TransferConfig,
        tax_percentage: Option<Amount>,
    ) -> (contract: ContractConfig)
        ensures
            contract == (ContractConfig {
                start_time,
                end_time,
                contract_type,
                energy,
                transfer,
                tax_percentage,
            }),
    {
        ContractConfig { start_time, end_time, contract_type, energy, transfer, tax_percentage }
    }

    /// A contract whose window is given in local time of `zone`. Fails
    /// where either bound cannot be converted to UTC: with the error of the
    /// start where that fails, else with the error of the end.
    pub fn from_local(
        start_time: &str,
        end_time: Option<&str>,
        contract_type: ContractType,
        energy: EnergyConfig,
        transfer: TransferConfig,
        tax_percentage: Option<Amount>,
        zone: &Zone,
    ) -> (contract: Result<ContractConfig, TimeParseError>)
        ensures
            match contract {
                Ok(c) => {
                    &&& spec_local_to_utc(start_time@, zone@) == Ok::<int, TimeParseError>(
                        c.start_time@,
                    )
                    &&& match end_time {
                        Some(text) => c.end_time is Some && spec_local_to_utc(text@, zone@) == Ok::<
                            int,
                            TimeParseError,
                        >(c.end_time->0@),
                        None => c.end_time is None,
                    }
                    &&& c.contract_type == contract_type
                    &&& c.energy == energy
                    &&& c.transfer == transfer
                    &&& c.tax_percentage == tax_percentage
                },
                Err(e) => {
                    ||| spec_local_to_utc(start_time@, zone@) == Err::<int, TimeParseError>(e)
                    ||| spec_local_to_utc(start_time@, zone@) is Ok && end_time is Some
                        && spec_local_to_utc(end_time->0@, zone@) == Err::<int, TimeParseError>(e)
                },
            },
    {
        let start: UtcTime = match local_to_utc(start_time, zone) {
            Ok(time) => time,
            Err(error) => {
                return Err(error);
            },
        };
        let end: Option<UtcTime> = match end_time {
            Some(text) => match local_to_utc(text, zone) {
                Ok(time) => Some(time),
                Err(error) => {
                    return Err(error);
                },
            },
            None => None,
        };
        Ok(ContractConfig::new(start, end, contract_type, energy, transfer, tax_percentage))
    }

    /// The first instant at which the contract is in force.
    pub fn get_start_time_utc(&self) -> (time: UtcTime)
        ensures
            time == self.start_time,
    {
        self.start_time
    }

    /// The last instant at which the contract is in force, `None` where it
    /// has no end.
    pub fn get_end_time_utc(&self) -> (time: Option<UtcTime>)
        ensures
            time == self.end_time,
    {
        self.end_time
    }

    /// Whether the contract is in force at the instant `time`: not before
    /// its start and not after its end.
    pub open spec fn matches_at(self, time: int) -> bool {
        &&& self.start_time@ <= time
        &&& match self.end_time {
            Some(end) => time <= end@,
            None => true,
        }
    }

    /// The tax on energy in percent, 24 where the contract names none.
    pub open spec fn spec_tax_percentage(self) -> Amount {
        match self.tax_percentage {
            Some(tax) => tax,
            None => Amount { micros: DEFAULT_TAX_PERCENTAGE_MICROS },
        }
    }

    /// The margin of the contract, zero where it names none.
    pub open spec fn spec_energy_margin(self) -> Amount {
        match self.energy.margin {
            Some(margin) => margin,
            None => Amount { micros: 0 },
        }
    }

    /// Whether `hour` is night under the contract. A contract has one night,
    /// split off by the hours of its energy configuration; the energy fee and
    /// the transfer fee both go by it.
    pub open spec fn spec_is_night(self, hour: u32) -> bool {
        is_night_hour(hour, self.energy.night_start_hour, self.energy.night_end_hour)
    }

    /// The transfer fee at `hour`: the night fee by night, the day fee by
    /// day. Night is the one night of the contract, that of
    /// [`ContractConfig::spec_is_night`].
    pub open spec fn spec_transfer_fee(self, hour: u32) -> Amount {
        if self.spec_is_night(hour) {
            self.transfer.night_fee
        } else {
            self.transfer.day_fee
        }
    }

    /// The fixed energy fee at `hour`: the night fee by night, the day fee
    /// by day, each zero where the contract names none.
    pub open spec fn spec_energy_fee_fixed(self, hour: u32) -> Amount {
        let fee = if self.spec_is_night(hour) {
            self.energy.night_fee
        } else {
            self.energy.day_fee
        };
        match fee {
            Some(amount) => amount,
            None => Amount { micros: 0 },
        }
    }

    /// Whether a negative spot price is passed on without tax.
    pub open spec fn spec_negative_exempt(self) -> bool {
        match self.energy.negative_no_tax {
            Some(flag) => flag,
            None => false,
        }
    }

    /// The spot energy fee for a spot price in EUR/MWh, `None` where it is
    /// too large to be held.
    pub open spec fn spec_energy_fee_spot(self, spot_price: Amount) -> Option<Amount> {
        amount_of(
            spot_fee_micros(
                spot_price@,
                self.spec_tax_percentage()@,
                self.spec_energy_margin()@,
                self.spec_negative_exempt(),
            ),
        )
    }

    /// The energy fee at `hour` for a spot price: nothing for a contract
    /// that does not price energy, the fixed fee for a fixed and for a hybrid
    /// contract, the spot fee for a spot contract.
    pub open spec fn spec_energy_fee(self, spot_price: Amount, hour: u32) -> Option<Amount> {
        match self.contract_type {
            ContractType::Unpriced => Some(Amount { micros: 0 }),
            ContractType::Fixed => Some(self.spec_energy_fee_fixed(hour)),
            ContractType::Spot => self.spec_energy_fee_spot(spot_price),
            ContractType::Hybrid => Some(self.spec_energy_fee_fixed(hour)),
        }
    }

    /// What validation asks of the energy configuration: a fixed contract
    /// names both fees, a spot contract names its margin.
    pub open spec fn spec_validate_energy(self) -> Result<(), EnergyConfigError> {
        match self.contract_type {
            ContractType::Fixed => if self.energy.day_fee is None || self.energy.night_fee is None {
                Err(EnergyConfigError::MissingFixedFees)
            } else {
                Ok(())
            },
            ContractType::Spot => if self.energy.margin is None {
                Err(EnergyConfigError::MissingSpotMargin)
            } else {
                Ok(())
            },
            _ => Ok(()),
        }
    }

    /// The margin of a spot contract, as configured.
    pub fn get_spot_margin(&self) -> (margin: Option<Amount>)
        ensures
            margin == self.energy.margin,
    {
        self.energy.margin
    }

    /// The tax on energy in percent, 24 where the contract names none.
    pub fn get_tax_percentage(&self) -> (tax: Amount)
        ensures
            tax == self.spec_tax_percentage(),
    {
        match self.tax_percentage {
            Some(tax) => tax,
            None => Amount::from_micros(DEFAULT_TAX_PERCENTAGE_MICROS),
        }
    }

    /// The basic fee for transfer.
    pub fn get_transfer_basic_fee(&self) -> (fee: Amount)
        ensures
            fee == self.transfer.basic_fee,
    {
        self.transfer.basic_fee
    }

    /// The tax on transferred energy.
    pub fn get_transfer_tax_fee(&self) -> (fee: Amount)
        ensures
            fee == self.transfer.tax_fee,
    {
        self.transfer.tax_fee
    }

    /// The basic fee for energy.
    pub fn get_energy_basic_fee(&self) -> (fee: Amount)
        ensures
            fee == self.energy.basic_fee,
    {
        self.energy.basic_fee
    }

    /// The margin of the contract, zero where it names none.
    pub fn get_energy_margin(&self) -> (margin: Amount)
        ensures
            margin == self.spec_energy_margin(),
    {
        match self.energy.margin {
            Some(margin) => margin,
            None => Amount::from_micros(0),
        }
    }

    /// Whether the local hour `hour` is night by the hours of the energy
    /// configuration.
    pub fn is_night_at(&self, hour: u32) -> (night: bool)
        ensures
            night == self.spec_is_night(hour),
            self.energy.night_start_hour is None && self.energy.night_end_hour is None ==> (night
                <==> hour < 7 || hour >= 22),
    {
        night_hour(hour, self.energy.night_start_hour, self.energy.night_end_hour)
    }

    /// Whether `time` falls in the night of `zone` by the hours of the
    /// energy configuration.
    pub fn get_is_night(&self, time: UtcTime, zone: &Zone) -> (night: bool)
        ensures
            night == self.spec_is_night(zone_local_hour(zone@, time@)),
    {
        self.is_night_at(zone.local_hour(time))
    }

    /// The transfer fee at the local hour `hour`: the night fee where the
    /// hour is night by [`ContractConfig::is_night_at`], else the day fee.
    pub fn transfer_fee_at(&self, hour: u32) -> (fee: Amount)
        ensures
            fee == self.spec_transfer_fee(hour),
            fee == (if self.spec_is_night(hour) {
                self.transfer.night_fee
            } else {
                self.transfer.day_fee
            }),
    {
        if self.is_night_at(hour) {
            self.transfer.night_fee
        } else {
            self.transfer.day_fee
        }
    }

    /// The transfer fee at `time` in `zone`: the night fee where
    /// [`ContractConfig::get_is_night`] holds of `time`, else the day fee.
    pub fn get_transfer_fee(&self, time: UtcTime, zone: &Zone) -> (fee: Amount)
        ensures
            fee == self.spec_transfer_fee(zone_local_hour(zone@, time@)),
            fee == (if self.spec_is_night(zone_local_hour(zone@, time@)) {
                self.transfer.night_fee
            } else {
                self.transfer.day_fee
            }),
    {
        self.transfer_fee_at(zone.local_hour(time))
    }

    /// The fixed energy fee at the local hour `hour`.
    pub fn energy_fee_fixed_at(&self, hour: u32) -> (fee: Amount)
        ensures
            fee == self.spec_energy_fee_fixed(hour),
    {
        let configured: Option<Amount> = if self.is_night_at(hour) {
            self.energy.night_fee
        } else {
            self.energy.day_fee
        };
        match configured {
            Some(amount) => amount,
            None => Amount::from_micros(0),
        }
    }

    /// The fixed energy fee at `time` in `zone`.
    pub fn get_energy_fee_fixed(&self, time: UtcTime, zone: &Zone) -> (fee: Amount)
        ensures
            fee == self.spec_energy_fee_fixed(zone_local_hour(zone@, time@)),
    {
        self.energy_fee_fixed_at(zone.local_hour(time))
    }

    /// The spot energy fee for a spot price in EUR/MWh, `None` where the
    /// fee is too large to be held.
    pub fn get_energy_fee_spot(&self, spot_price: Amount) -> (fee: Option<Amount>)
        ensures
            fee == self.spec_energy_fee_spot(spot_price),
    {
        let margin: i128 = self.get_energy_margin().micros() as i128;
        let tax: i128 = self.get_tax_percentage().micros() as i128;
        let exempt: bool = match self.energy.negative_no_tax {
            Some(flag) => flag,
            None => false,
        };
        let price: i128 = spot_price.micros() as i128;
        let before_margin: i128 = if exempt && price < 0 {
            floor_div(price, 10)
        } else {
            let factor: i128 = FULL_PERCENTAGE + tax;
            proof {
                lemma_product_bound(price as int, factor as int);
            }
            floor_div(price * factor, 10 * FULL_PERCENTAGE)
        };
        let fee: i128 = before_margin + margin;
        if i64::MIN as i128 <= fee && fee <= i64::MAX as i128 {
            Some(Amount::from_micros(fee as i64))
        } else {
            None
        }
    }

    /// The energy fee at the local hour `hour` for a spot price in EUR/MWh.
    pub fn energy_fee_at(&self, spot_price: Amount, hour: u32) -> (fee: Option<Amount>)
        ensures
            fee == self.spec_energy_fee(spot_price, hour),
    {
        match self.contract_type {
            ContractType::Unpriced => Some(Amount::from_micros(0)),
            ContractType::Fixed => Some(self.energy_fee_fixed_at(hour)),
            ContractType::Spot => self.get_energy_fee_spot(spot_price),
            ContractType::Hybrid => Some(self.energy_fee_fixed_at(hour)),
        }
    }

    /// The energy fee at `time` in `zone` for a spot price in EUR/MWh.
    pub fn get_energy_fee(&self, spot_price: Amount, time: UtcTime, zone: &Zone) -> (fee: Option<
        Amount,
    >)
        ensures
            fee == self.spec_energy_fee(spot_price, zone_local_hour(zone@, time@)),
    {
        self.energy_fee_at(spot_price, zone.local_hour(time))
    }

    /// Checks that the contract names the fees that its type needs.
    pub fn validate_energy(&self) -> (result: Result<(), EnergyConfigError>)
        ensures
            result == self.spec_validate_energy(),
    {
        match self.contract_type {
            ContractType::Fixed => {
                if self.energy.day_fee.is_none() || self.energy.night_fee.is_none() {
                    return Err(EnergyConfigError::MissingFixedFees);
                }
            },
            ContractType::Spot => {
                if self.energy.margin.is_none() {
                    return Err(EnergyConfigError::MissingSpotMargin);
                }
            },
            _ => {},
        }
        Ok(())
    }

    /// Whether the contract is in force at `time`.
    pub fn is_match(&self, time: UtcTime) -> (matches: bool)
        ensures
            matches == self.matches_at(time@),
    {
        if time.timestamp() < self.start_time.timestamp() {
            return false;
        }
        match self.end_time {
            Some(end) => time.timestamp() <= end.timestamp(),
            None => true,
        }
    }
}

} // verus!
