//! Enrichment: each decoded sample is given the contract in force at its
//! instant, the fees that the contract sets for it, and the day-ahead spot
//! price of its hour.

use vstd::prelude::*;
use crate::amount::Amount;
use crate::contract::{ContractConfig, ContractType};
use crate::contracts::{sole_match, ContractsConfig};
use crate::instant::UtcTime;
use crate::models::{
    resolved_views, spec_decode, ConsumptionData, MeasurementType, ResolvedPoint,
    ResolvedPointView,
};
use crate::resolution::ResolutionDuration;
use crate::time::{zone_local_hour, TimeParseError, Zone};

verus! {

/// A sample with everything that is stored of it. A record is stored under
/// the key of its instant, metering point, direction and resolution.
#[derive(Debug)]
pub struct EnrichedRecord {
    /// The instant of the sample.
    pub time: UtcTime,
    /// The position of the sample in its series.
    pub index: usize,
    /// The code of the metering point.
    pub metering_point_code: String,
    /// The direction in which the energy was metered.
    pub measurement_type: MeasurementType,
    /// The step of the series.
    pub resolution: ResolutionDuration,
    /// The unit of `value`.
    pub unit: String,
    /// The metered quantity.
    pub value: Amount,
    /// The type of the contract in force.
    pub contract_type: ContractType,
    /// Whether the sample falls in the night of the energy tariff.
    pub night: bool,
    /// The basic fee for transfer.
    pub transfer_basic_fee: Amount,
    /// The transfer fee of the hour.
    pub transfer_fee: Amount,
    /// The tax on transferred energy.
    pub transfer_tax_fee: Amount,
    /// The basic fee for energy.
    pub energy_basic_fee: Amount,
    /// The energy fee of the hour; `None` where it is too large to be held.
    pub energy_fee: Option<Amount>,
    /// The margin of the contract, zero where it names none.
    pub energy_margin: Amount,
    /// The margin of the contract as configured.
    pub spot_margin: Option<Amount>,
    /// The tax on energy, in percent.
    pub tax_percentage: Amount,
    /// The day-ahead spot price of the hour in EUR/MWh, zero where none is
    /// known.
    pub spot_price: Amount,
}

/// What an [`EnrichedRecord`] holds, with its instant in seconds since the
/// epoch and its texts as sequences of characters.
pub struct EnrichedRecordView {
    pub time: int,
    pub index: int,
    pub metering_point_code: Seq<char>,
    pub measurement_type: MeasurementType,
    pub resolution: ResolutionDuration,
    pub unit: Seq<char>,
    pub value: Amount,
    pub contract_type: ContractType,
    pub night: bool,
    pub transfer_basic_fee: Amount,
    pub transfer_fee: Amount,
    pub transfer_tax_fee: Amount,
    pub energy_basic_fee: Amount,
    pub energy_fee: Option<Amount>,
    pub energy_margin: Amount,
    pub spot_margin: Option<Amount>,
    pub tax_percentage: Amount,
    pub spot_price: Amount,
}

impl View for EnrichedRecord {
    type V = EnrichedRecordView;

    open spec fn view(&self) -> EnrichedRecordView {
        EnrichedRecordView {
            time: self.time@,
            index: self.index as int,
            metering_point_code: self.metering_point_code@,
            measurement_type: self.measurement_type,
            resolution: self.resolution,
            unit: self.unit@,
            value: self.value,
            contract_type: self.contract_type,
            night: self.night,
            transfer_basic_fee: self.transfer_basic_fee,
            transfer_fee: self.transfer_fee,
            transfer_tax_fee: self.transfer_tax_fee,
            energy_basic_fee: self.energy_basic_fee,
            energy_fee: self.energy_fee,
            energy_margin: self.energy_margin,
            spot_margin: self.spot_margin,
            tax_percentage: self.tax_percentage,
            spot_price: self.spot_price,
        }
    }
}

/// The outcome of enriching a series.
#[derive(Debug)]
pub struct Enrichment {
    /// The records, in the order of the samples.
    pub records: Vec<EnrichedRecord>,
    /// The number of decoded samples that were left without record because
    /// no single contract was in force at their instant.
    pub skipped: usize,
}

/// The fees of a record that the wide-column store holds: all of them for
/// consumption, and for production the transfer fee and the tax percentage
/// alone.
#[derive(Clone, Copy, Debug, PartialEq, Eq, Structural)]
pub struct StoredFees {
    /// The basic fee for transfer.
    pub transfer_basic_fee: Option<Amount>,
    /// The transfer fee of the hour.
    pub transfer_fee: Option<Amount>,
    /// The tax on transferred energy.
    pub tax_fee: Option<Amount>,
    /// The basic fee for energy.
    pub basic_fee: Option<Amount>,
    /// The energy fee of the hour.
    pub energy_fee: Option<Amount>,
    /// The margin of the contract as configured.
    pub spot_margin: Option<Amount>,
    /// The tax on energy, in percent.
    pub tax_percentage: Option<Amount>,
}

/// The columns that the relational store fills for a record.
#[derive(Clone, Copy, Debug, PartialEq, Eq, Structural)]
pub enum RowLayout {
    /// A production row: basic fees, margin, transfer fees and tax.
    Production,
    /// A consumption row with the energy fee of the hour and the night
    /// flag: under a fixed or a hybrid contract, and under a contract that
    /// prices no energy, whose energy fee is zero.
    ConsumptionWithFee,
    /// A consumption row under a spot contract: with the margin and the
    /// night flag.
    ConsumptionWithMargin,
}

/// The fees of a record that the wide-column store holds.
pub open spec fn stored_fees(record: EnrichedRecordView) -> StoredFees {
    match record.measurement_type {
        MeasurementType::Consumption => StoredFees {
            transfer_basic_fee: Some(record.transfer_basic_fee),
            transfer_fee: Some(record.transfer_fee),
            tax_fee: Some(record.transfer_tax_fee),
            basic_fee: Some(record.energy_basic_fee),
            energy_fee: record.energy_fee,
            spot_margin: record.spot_margin,
            tax_percentage: Some(record.tax_percentage),
        },
        MeasurementType::Production => StoredFees {
            transfer_basic_fee: None,
            transfer_fee: Some(record.transfer_fee),
            tax_fee: None,
            basic_fee: None,
            energy_fee: None,
            spot_margin: None,
            tax_percentage: Some(record.tax_percentage),
        },
    }
}

/// The columns that the relational store fills for a record. Every record
/// has a row: the row of a production record is the same under every
/// contract, and the row of a consumption record carries the margin under a
/// spot contract and the energy fee under every other.
pub open spec fn row_layout(record: EnrichedRecordView) -> RowLayout {
    match record.measurement_type {
        MeasurementType::Production => RowLayout::Production,
        MeasurementType::Consumption => match record.contract_type {
            ContractType::Spot => RowLayout::ConsumptionWithMargin,
            ContractType::Fixed => RowLayout::ConsumptionWithFee,
            ContractType::Hybrid => RowLayout::ConsumptionWithFee,
            ContractType::Unpriced => RowLayout::ConsumptionWithFee,
        },
    }
}

impl EnrichedRecord {
    /// The fees of the record that the wide-column store holds.
    pub fn stored_fees(&self) -> (fees: StoredFees)
        ensures
            fees == stored_fees(self@),
    {
        match self.measurement_type {
            MeasurementType::Consumption => StoredFees {
                transfer_basic_fee: Some(self.transfer_basic_fee),
                transfer_fee: Some(self.transfer_fee),
                tax_fee: Some(self.transfer_tax_fee),
                basic_fee: Some(self.energy_basic_fee),
                energy_fee: self.energy_fee,
                spot_margin: self.spot_margin,
                tax_percentage: Some(self.tax_percentage),
            },
            MeasurementType::Production => StoredFees {
                transfer_basic_fee: None,
                transfer_fee: Some(self.transfer_fee),
                tax_fee: None,
                basic_fee: None,
                energy_fee: None,
                spot_margin: None,
                tax_percentage: Some(self.tax_percentage),
            },
        }
    }

    /// The columns that the relational store fills for the record.
    pub fn row_layout(&self) -> (layout: RowLayout)
        ensures
            layout == row_layout(self@),
    {
        match self.measurement_type {
            MeasurementType::Production => RowLayout::Production,
            MeasurementType::Consumption => match self.contract_type {
                ContractType::Spot => RowLayout::ConsumptionWithMargin,
                ContractType::Fixed => RowLayout::ConsumptionWithFee,
                ContractType::Hybrid => RowLayout::ConsumptionWithFee,
                ContractType::Unpriced => RowLayout::ConsumptionWithFee,
            },
        }
    }
}

/// The views of a sequence of records.
pub open spec fn record_views(records: Seq<EnrichedRecord>) -> Seq<EnrichedRecordView> {
    records.map_values(|record: EnrichedRecord| record@)
}

/// The spot price of the sample at position `k` of the decoded samples: the
/// price at that position, and zero where none is given.
pub open spec fn price_at(prices: Seq<Amount>, k: int) -> Amount {
    if 0 <= k < prices.len() {
        prices[k]
    } else {
        Amount { micros: 0 }
    }
}

/// The record of the sample `point` of the series `data` under the contract
/// `contract`, where the local clock shows the hour `hour` at the instant of
/// the sample and the spot price of that hour is `spot_price`.
pub open spec fn enriched_record(
    data: ConsumptionData,
    measurement_type: MeasurementType,
    point: ResolvedPointView,
    contract: ContractConfig,
    hour: u32,
    spot_price: Amount,
) -> EnrichedRecordView {
    EnrichedRecordView {
        time: point.time,
        index: point.index,
        metering_point_code: data.meteringpointcode@,
        measurement_type,
        resolution: ResolutionDuration::spec_from_str(data.timeseries.resolution@),
        unit: data.sum.unit@,
        value: point.quantity,
        contract_type: contract.contract_type,
        night: contract.spec_is_night(hour),
        transfer_basic_fee: contract.transfer.basic_fee,
        transfer_fee: contract.spec_transfer_fee(hour),
        transfer_tax_fee: contract.transfer.tax_fee,
        energy_basic_fee: contract.energy.basic_fee,
        energy_fee: contract.spec_energy_fee(spot_price, hour),
        energy_margin: contract.spec_energy_margin(),
        spot_margin: contract.energy.margin,
        tax_percentage: contract.spec_tax_percentage(),
        spot_price,
    }
}

/// Whether exactly one of `contracts` is in force at the instant `time`.
pub open spec fn has_contract(contracts: Seq<ContractConfig>, time: int) -> bool {
    exists|i: int| sole_match(contracts, time, i)
}

/// The contract of `contracts` that alone is in force at the instant
/// `time`.
pub open spec fn contract_at(contracts: Seq<ContractConfig>, time: int) -> ContractConfig {
    contracts[choose|i: int| sole_match(contracts, time, i)]
}

/// The record of the sample `point` where exactly one contract is in force
/// at its instant, else none: such a sample is skipped, not given fees of
/// zero.
pub open spec fn enrich_point(
    data: ConsumptionData,
    measurement_type: MeasurementType,
    point: ResolvedPointView,
    spot_price: Amount,
    contracts: Seq<ContractConfig>,
    zone: Seq<char>,
) -> Option<EnrichedRecordView> {
    if has_contract(contracts, point.time) {
        Some(
            enriched_record(
                data,
                measurement_type,
                point,
                contract_at(contracts, point.time),
                zone_local_hour(zone, point.time),
                spot_price,
            ),
        )
    } else {
        None
    }
}

/// The records of the first `n` of the decoded samples `points`, in their
/// order, with the spot prices `prices`.
pub open spec fn enrich_points(
    data: ConsumptionData,
    measurement_type: MeasurementType,
    points: Seq<ResolvedPointView>,
    prices: Seq<Amount>,
    contracts: Seq<ContractConfig>,
    zone: Seq<char>,
    n: int,
) -> Seq<EnrichedRecordView>
    decreases n,
{
    if n <= 0 {
        Seq::empty()
    } else {
        let before = enrich_points(data, measurement_type, points, prices, contracts, zone, n - 1);
        match enrich_point(
            data,
            measurement_type,
            points[n - 1],
            price_at(prices, n - 1),
            contracts,
            zone,
        ) {
            Some(record) => before.push(record),
            None => before,
        }
    }
}

/// The number of the first `n` of the decoded samples `points` at whose
/// instant no single contract is in force.
pub open spec fn skipped_points(
    points: Seq<ResolvedPointView>,
    contracts: Seq<ContractConfig>,
    n: int,
) -> int
    decreases n,
{
    if n <= 0 {
        0
    } else if has_contract(contracts, points[n - 1].time) {
        skipped_points(points, contracts, n - 1)
    } else {
        skipped_points(points, contracts, n - 1) + 1
    }
}

/// Whether `enrichment` is the outcome of enriching the decoded samples
/// `points` of the series `data` with the spot prices `prices`.
pub open spec fn is_enrichment(
    enrichment: Enrichment,
    data: ConsumptionData,
    measurement_type: MeasurementType,
    points: Seq<ResolvedPoint>,
    prices: Seq<Amount>,
    contracts: Seq<ContractConfig>,
    zone: Seq<char>,
) -> bool {
    &&& record_views(enrichment.records@) == enrich_points(
        data,
        measurement_type,
        resolved_views(points),
        prices,
        contracts,
        zone,
        points.len() as int,
    )
    &&& enrichment.skipped == skipped_points(resolved_views(points), contracts, points.len() as int)
}

/// Every decoded sample is either recorded or counted as skipped, and the
/// records keep the order of the samples.
pub proof fn lemma_recorded_or_skipped(
    data: ConsumptionData,
    measurement_type: MeasurementType,
    points: Seq<ResolvedPointView>,
    prices: Seq<Amount>,
    contracts: Seq<ContractConfig>,
    zone: Seq<char>,
    n: int,
)
    requires
        0 <= n <= points.len(),
    ensures
        enrich_points(data, measurement_type, points, prices, contracts, zone, n).len()
            + skipped_points(points, contracts, n) == n,
        0 <= skipped_points(points, contracts, n) <= n,
        forall|k: int|
            0 <= k < enrich_points(data, measurement_type, points, prices, contracts, zone, n).len()
                ==> {
                let record = #[trigger] enrich_points(
                    data,
                    measurement_type,
                    points,
                    prices,
                    contracts,
                    zone,
                    n,
                )[k];
                &&& has_contract(contracts, record.time)
                &&& record.contract_type == contract_at(contracts, record.time).contract_type
            },
    decreases n,
{
    if n > 0 {
        lemma_recorded_or_skipped(data, measurement_type, points, prices, contracts, zone, n - 1);
        let before = enrich_points(data, measurement_type, points, prices, contracts, zone, n - 1);
        let all = enrich_points(data, measurement_type, points, prices, contracts, zone, n);
        assert forall|k: int| 0 <= k < all.len() implies {
            let record = #[trigger] all[k];
            &&& has_contract(contracts, record.time)
            &&& record.contract_type == contract_at(contracts, record.time).contract_type
        } by {
            if k < before.len() {
                assert(all[k] == before[k]);
            }
        }
    }
}

/// Assembles the record of a sample under a contract, from the hour that
/// the local clock shows at the instant of the sample and the spot price of
/// that hour.
pub fn assemble_record(
    data: &ConsumptionData,
    measurement_type: MeasurementType,
    point: ResolvedPoint,
    contract: &ContractConfig,
    hour: u32,
    spot_price: Amount,
) -> (record: EnrichedRecord)
    ensures
        record@ == enriched_record(*data, measurement_type, point@, *contract, hour, spot_price),
{
    EnrichedRecord {
        time: point.time,
        index: point.index,
        metering_point_code: data.meteringpointcode.clone(),
        measurement_type,
        resolution: data.timeseries.resolution_duration(),
        unit: data.sum.unit.clone(),
        value: point.quantity,
        contract_type: contract.contract_type,
        night: contract.is_night_at(hour),
        transfer_basic_fee: contract.get_transfer_basic_fee(),
        transfer_fee: contract.transfer_fee_at(hour),
        transfer_tax_fee: contract.get_transfer_tax_fee(),
        energy_basic_fee: contract.get_energy_basic_fee(),
        energy_fee: contract.energy_fee_at(spot_price, hour),
        energy_margin: contract.get_energy_margin(),
        spot_margin: contract.get_spot_margin(),
        tax_percentage: contract.get_tax_percentage(),
        spot_price,
    }
}

/// Enriches decoded samples with the spot prices that were looked up for
/// them: `prices` holds the price of each sample at the position of the
/// sample in `points`, and a sample without price has the price zero. A
/// sample at whose instant no single contract is in force gets no record and
/// is counted in `skipped`.
pub fn enrich_decoded(
    data: &ConsumptionData,
    measurement_type: MeasurementType,
    points: &Vec<ResolvedPoint>,
    prices: &Vec<Amount>,
    contracts: &ContractsConfig,
    zone: &Zone,
) -> (enrichment: Enrichment)
    ensures
        is_enrichment(
            enrichment,
            *data,
            measurement_type,
            points@,
            prices@,
            contracts.contracts@,
            zone@,
        ),
{
    let mut records: Vec<EnrichedRecord> = Vec::new();
    let mut skipped: usize = 0;
    let mut k: usize = 0;
    while k < points.len()
        invariant
            k <= points.len(),
            skipped <= k,
            record_views(records@) == enrich_points(
                *data,
                measurement_type,
                resolved_views(points@),
                prices@,
                contracts.contracts@,
                zone@,
                k as int,
            ),
            skipped == skipped_points(resolved_views(points@), contracts.contracts@, k as int),
        decreases points.len() - k,
    {
        let ghost before = records@;
        let point: ResolvedPoint = points[k];
        let spot_price: Amount = if k < prices.len() {
            prices[k]
        } else {
            Amount::from_micros(0)
        };
        assert(resolved_views(points@)[k as int] == point@);
        match contracts.get_contract(point.time) {
            Some(contract) => {
                proof {
                    let i = choose|i: int| #[trigger]
                        sole_match(contracts.contracts@, point.time@, i) && *contract
                            == contracts.contracts@[i];
                    let j = choose|j: int| sole_match(contracts.contracts@, point.time@, j);
                    assert(i == j);
                }
                let hour: u32 = zone.local_hour(point.time);
                let record = assemble_record(
                    data,
                    measurement_type,
                    point,
                    contract,
                    hour,
                    spot_price,
                );
                let ghost view = record@;
                records.push(record);
                assert(record_views(records@) == record_views(before).push(view));
            },
            None => {
                skipped = skipped + 1;
            },
        }
        k = k + 1;
    }
    Enrichment { records, skipped }
}

/// Enriches a series: decodes it, looks up the day-ahead spot price of each
/// decoded sample with `price_lookup`, and assembles the record of each
/// sample at whose instant a single contract is in force. The others are
/// counted, not recorded. Fails where the anchor of the series cannot be
/// converted to UTC. Nothing is written anywhere.
pub fn enrich<F: Fn(UtcTime) -> Amount>(
    data: &ConsumptionData,
    measurement_type: MeasurementType,
    contracts: &ContractsConfig,
    zone: &Zone,
    price_lookup: F,
) -> (result: Result<Enrichment, TimeParseError>)
    requires
        forall|time: UtcTime| call_requires(price_lookup, (time,)),
    ensures
        result matches Err(error) ==> spec_decode(data.timeseries, zone@) matches Err(e) && e
            == error,
        result matches Ok(enrichment) ==> exists|points: Seq<ResolvedPoint>, prices: Seq<Amount>|
            {
                &&& spec_decode(data.timeseries, zone@) matches Ok(views) && views
                    == resolved_views(points)
                &&& prices.len() == points.len()
                &&& forall|k: int|
                    0 <= k < points.len() ==> call_ensures(
                        price_lookup,
                        (points[k].time,),
                        #[trigger] prices[k],
                    )
                &&& #[trigger] is_enrichment(
                    enrichment,
                    *data,
                    measurement_type,
                    points,
                    prices,
                    contracts.contracts@,
                    zone@,
                )
            },
{
    let points: Vec<ResolvedPoint> = match data.timeseries.decode(zone) {
        Ok(points) => points,
        Err(error) => {
            return Err(error);
        },
    };
    let mut prices: Vec<Amount> = Vec::new();
    let mut k: usize = 0;
    while k < points.len()
        invariant
            k <= points.len(),
            prices.len() == k,
            spec_decode(data.timeseries, zone@) matches Ok(views) && views == resolved_views(
                points@,
            ),
            forall|time: UtcTime| call_requires(price_lookup, (time,)),
            forall|j: int|
                0 <= j < k ==> call_ensures(price_lookup, (points@[j].time,), #[trigger] prices@[j]),
        decreases points.len() - k,
    {
        let price: Amount = price_lookup(points[k].time);
        prices.push(price);
        k = k + 1;
    }
    let enriched: Result<Enrichment, TimeParseError> = Ok(
        enrich_decoded(data, measurement_type, &points, &prices, contracts, zone),
    );
    assert(is_enrichment(
        enriched->Ok_0,
        *data,
        measurement_type,
        points@,
        prices@,
        contracts.contracts@,
        zone@,
    ));
    enriched
}

} // verus!
