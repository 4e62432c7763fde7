use wattivahti::amount::Amount;
use wattivahti::contract::{ContractConfig, ContractType, EnergyConfig, TransferConfig};
use wattivahti::contracts::ContractsConfig;
use wattivahti::enrich::{assemble_record, enrich, enrich_decoded, RowLayout};
use wattivahti::instant::UtcTime;
use wattivahti::models::{
    ConsumptionData, MeasurementType, ResolvedPoint, Sum, TimeSeries, Values, TSV,
};
use wattivahti::resolution::ResolutionDuration;
use wattivahti::time::{TimeParseError, Zone};

fn helsinki() -> Zone {
    Zone::parse("Europe/Helsinki").unwrap()
}

fn amount(value: f64) -> Amount {
    Amount::from_micros((value * 1_000_000.0).round() as i64)
}

fn at(secs: i64) -> UtcTime {
    UtcTime::from_timestamp(secs).unwrap()
}

fn energy() -> EnergyConfig {
    EnergyConfig {
        night_start_hour: Some(22),
        night_end_hour: Some(7),
        basic_fee: amount(3.54),
        day_fee: Some(amount(7.5)),
        night_fee: Some(amount(5.25)),
        margin: Some(amount(0.25)),
        negative_no_tax: Some(true),
    }
}

fn transfer() -> TransferConfig {
    TransferConfig {
        night_start_hour: Some(22),
        night_end_hour: Some(7),
        basic_fee: amount(5.0),
        day_fee: amount(3.1),
        night_fee: amount(1.7),
        tax_fee: amount(2.79372),
        negative_no_tax: None,
    }
}

fn contracts() -> ContractsConfig {
    let zone = helsinki();
    let build = |start: &str, end: Option<&str>, contract_type: ContractType| {
        ContractConfig::from_local(
            start,
            end,
            contract_type,
            energy(),
            transfer(),
            Some(amount(24.0)),
            &zone,
        )
        .unwrap()
    };
    ContractsConfig::new(vec![
        build("2022-01-01T00:00:00", Some("2022-08-01T02:59:59"), ContractType::Fixed),
        build("2022-08-01T03:00:00", Some("2022-08-01T05:59:59"), ContractType::Spot),
        build("2022-08-01T07:00:00", None, ContractType::Hybrid),
    ])
}

fn data(samples: Vec<Option<f64>>, start: &str, resolution: &str) -> ConsumptionData {
    ConsumptionData {
        meteringpointcode: "1337".to_string(),
        sum: Sum {
            quantity: amount(0.06),
            start: start.to_string(),
            stop: "2022-09-01T00:00:00".to_string(),
            unit: "kWh".to_string(),
        },
        timeseries: TimeSeries {
            start: start.to_string(),
            stop: "2022-09-01T00:00:00".to_string(),
            resolution: resolution.to_string(),
            values: Values {
                tsv: samples
                    .into_iter()
                    .map(|quantity| TSV {
                        quantity: quantity.map(amount),
                        time: "2022-08-01T00:00:00".to_string(),
                        start: None,
                        stop: None,
                        unit: None,
                    })
                    .collect(),
            },
        },
    }
}

const ANCHOR: i64 = 1_659_301_200;

#[test]
fn series_is_enriched_sample_by_sample() {
    let series = data(
        vec![Some(0.5), None, Some(0.25), Some(1.0), Some(2.0), Some(3.0), Some(4.0), Some(5.0)],
        "2022-08-01T00:00:00",
        "PT1H",
    );
    let price = |time: UtcTime| amount(((time.timestamp() - ANCHOR) / 3600 * 10) as f64);
    let enriched =
        enrich(&series, MeasurementType::Consumption, &contracts(), &helsinki(), price).unwrap();

    // The sample at position 1 has no quantity; the one at position 6 falls
    // in the hour that no contract covers.
    let positions: Vec<usize> = enriched.records.iter().map(|record| record.index).collect();
    assert_eq!(positions, vec![0, 2, 3, 4, 5, 7]);
    assert_eq!(enriched.skipped, 1);

    for record in &enriched.records {
        assert_eq!(record.time.timestamp(), ANCHOR + 3600 * record.index as i64);
        assert_eq!(record.metering_point_code, "1337");
        assert_eq!(record.unit, "kWh");
        assert_eq!(record.measurement_type, MeasurementType::Consumption);
        assert_eq!(record.resolution, ResolutionDuration::PT1H);
        assert_eq!(record.spot_price, amount(10.0 * record.index as f64));
        assert_eq!(record.transfer_basic_fee, amount(5.0));
        assert_eq!(record.transfer_tax_fee, amount(2.79372));
        assert_eq!(record.energy_basic_fee, amount(3.54));
        assert_eq!(record.energy_margin, amount(0.25));
        assert_eq!(record.spot_margin, Some(amount(0.25)));
        assert_eq!(record.tax_percentage, amount(24.0));
    }

    let first = &enriched.records[0];
    assert_eq!(first.value, amount(0.5));
    assert_eq!(first.contract_type, ContractType::Fixed);
    assert!(first.night);
    assert_eq!(first.energy_fee, Some(amount(5.25)));
    assert_eq!(first.transfer_fee, amount(1.7));

    let fourth = &enriched.records[2];
    assert_eq!(fourth.index, 3);
    assert_eq!(fourth.value, amount(1.0));
    assert_eq!(fourth.contract_type, ContractType::Spot);
    assert!(fourth.night);
    assert_eq!(fourth.energy_fee, Some(amount(30.0 / 10.0 * 1.24 + 0.25)));
    assert_eq!(fourth.transfer_fee, amount(1.7));

    let last = &enriched.records[5];
    assert_eq!(last.index, 7);
    assert_eq!(last.value, amount(5.0));
    assert_eq!(last.contract_type, ContractType::Hybrid);
    assert!(!last.night);
    assert_eq!(last.energy_fee, Some(amount(7.5)));
    assert_eq!(last.transfer_fee, amount(3.1));
}

#[test]
fn sample_without_contract_is_counted_not_recorded() {
    let series = data(vec![Some(1.0), Some(2.0)], "2021-12-31T23:00:00", "PT1H");
    let enriched =
        enrich(&series, MeasurementType::Production, &contracts(), &helsinki(), |_| amount(0.0))
            .unwrap();
    assert_eq!(enriched.skipped, 1);
    assert_eq!(enriched.records.len(), 1);
    assert_eq!(enriched.records[0].index, 1);
    assert_eq!(enriched.records[0].measurement_type, MeasurementType::Production);

    let nothing = ContractsConfig::new(vec![]);
    let enriched =
        enrich(&series, MeasurementType::Production, &nothing, &helsinki(), |_| amount(0.0)).unwrap();
    assert_eq!(enriched.skipped, 2);
    assert!(enriched.records.is_empty());
}

#[test]
fn sample_under_two_contracts_is_counted_not_recorded() {
    let zone = helsinki();
    let build = |start: &str, end: Option<&str>| {
        ContractConfig::from_local(start, end, ContractType::Fixed, energy(), transfer(), None, &zone)
            .unwrap()
    };
    let overlapping = ContractsConfig::new(vec![
        build("2022-01-01T00:00:00", Some("2022-08-01T01:00:00")),
        build("2022-08-01T01:00:00", None),
    ]);
    let series = data(vec![Some(1.0), Some(2.0), Some(3.0)], "2022-08-01T00:00:00", "PT1H");
    let enriched =
        enrich(&series, MeasurementType::Consumption, &overlapping, &zone, |_| amount(0.0)).unwrap();
    let positions: Vec<usize> = enriched.records.iter().map(|record| record.index).collect();
    assert_eq!(positions, vec![0, 2]);
    assert_eq!(enriched.skipped, 1);
}

#[test]
fn unreadable_anchor_fails_the_enrichment() {
    let series = data(vec![Some(1.0)], "1.8.2022 00:00", "PT1H");
    let result =
        enrich(&series, MeasurementType::Consumption, &contracts(), &helsinki(), |_| amount(0.0));
    assert_eq!(result.err(), Some(TimeParseError::Malformed));
}

#[test]
fn missing_price_is_zero() {
    let series = data(vec![Some(1.0), Some(2.0)], "2022-08-01T03:00:00", "PT15MIN");
    let zone = helsinki();
    let points = series.timeseries.decode(&zone).unwrap();
    let prices = vec![amount(100.0)];
    let enriched = enrich_decoded(
        &series,
        MeasurementType::Consumption,
        &points,
        &prices,
        &contracts(),
        &zone,
    );
    assert_eq!(enriched.skipped, 0);
    assert_eq!(enriched.records.len(), 2);
    assert_eq!(enriched.records[0].resolution, ResolutionDuration::PT15M);
    assert_eq!(enriched.records[0].spot_price, amount(100.0));
    assert_eq!(enriched.records[0].energy_fee, Some(amount(12.65)));
    assert_eq!(enriched.records[1].time.timestamp(), ANCHOR + 3 * 3600 + 900);
    assert_eq!(enriched.records[1].spot_price, amount(0.0));
    assert_eq!(enriched.records[1].energy_fee, Some(amount(0.25)));
}

#[test]
fn record_is_assembled_from_hour_and_price() {
    let series = data(vec![Some(1.0)], "2022-08-01T00:00:00", "PT1H");
    let point = ResolvedPoint { index: 4, time: at(ANCHOR + 4 * 3600), quantity: amount(0.75) };
    let all = contracts();
    let spot = &all.contracts[1];
    let record =
        assemble_record(&series, MeasurementType::Consumption, point, spot, 23, amount(-50.0));
    assert_eq!(record.time, point.time);
    assert_eq!(record.index, 4);
    assert_eq!(record.value, amount(0.75));
    assert_eq!(record.contract_type, ContractType::Spot);
    assert!(record.night);
    assert_eq!(record.energy_fee, Some(amount(-4.75)));
    assert_eq!(record.transfer_fee, amount(1.7));
    assert_eq!(record.spot_price, amount(-50.0));
    let record =
        assemble_record(&series, MeasurementType::Production, point, &all.contracts[0], 12, amount(-50.0));
    assert_eq!(record.measurement_type, MeasurementType::Production);
    assert!(!record.night);
    assert_eq!(record.energy_fee, Some(amount(7.5)));
    assert_eq!(record.transfer_fee, amount(3.1));
}

#[test]
fn records_of_a_spring_forward_day_are_an_hour_apart() {
    let series = data(vec![Some(1.0); 7], "2023-03-26T00:00:00", "PT1H");
    let enriched =
        enrich(&series, MeasurementType::Consumption, &contracts(), &helsinki(), |_| amount(42.0))
            .unwrap();
    assert_eq!(enriched.records.len(), 7);
    for (i, record) in enriched.records.iter().enumerate() {
        assert_eq!(record.time.timestamp(), 1_679_781_600 + 3600 * i as i64);
    }
    // Local hours 0, 1, 2, 4, 5, 6 are night, 7 is day.
    let nights: Vec<bool> = enriched.records.iter().map(|record| record.night).collect();
    assert_eq!(nights, vec![true, true, true, true, true, true, false]);
}

#[test]
fn stores_hold_what_belongs_to_the_direction() {
    let series = data(vec![Some(1.0)], "2022-08-01T00:00:00", "PT1H");
    let point = ResolvedPoint { index: 0, time: at(ANCHOR), quantity: amount(0.75) };
    let all = contracts();
    let consumed =
        assemble_record(&series, MeasurementType::Consumption, point, &all.contracts[1], 3, amount(100.0));
    let fees = consumed.stored_fees();
    assert_eq!(fees.transfer_basic_fee, Some(amount(5.0)));
    assert_eq!(fees.transfer_fee, Some(amount(1.7)));
    assert_eq!(fees.tax_fee, Some(amount(2.79372)));
    assert_eq!(fees.basic_fee, Some(amount(3.54)));
    assert_eq!(fees.energy_fee, Some(amount(12.65)));
    assert_eq!(fees.spot_margin, Some(amount(0.25)));
    assert_eq!(fees.tax_percentage, Some(amount(24.0)));
    assert_eq!(consumed.row_layout(), RowLayout::ConsumptionWithMargin);

    let produced =
        assemble_record(&series, MeasurementType::Production, point, &all.contracts[1], 3, amount(100.0));
    let fees = produced.stored_fees();
    assert_eq!(fees.transfer_basic_fee, None);
    assert_eq!(fees.transfer_fee, Some(amount(1.7)));
    assert_eq!(fees.tax_fee, None);
    assert_eq!(fees.basic_fee, None);
    assert_eq!(fees.energy_fee, None);
    assert_eq!(fees.spot_margin, None);
    assert_eq!(fees.tax_percentage, Some(amount(24.0)));
    assert_eq!(produced.row_layout(), RowLayout::Production);

    let mut contract = all.contracts[0];
    for (contract_type, layout) in [
        (ContractType::Fixed, RowLayout::ConsumptionWithFee),
        (ContractType::Hybrid, RowLayout::ConsumptionWithFee),
        (ContractType::Spot, RowLayout::ConsumptionWithMargin),
        (ContractType::Unpriced, RowLayout::ConsumptionWithFee),
    ] {
        contract.contract_type = contract_type;
        let record =
            assemble_record(&series, MeasurementType::Consumption, point, &contract, 3, amount(1.0));
        assert_eq!(record.row_layout(), layout);
        let record =
            assemble_record(&series, MeasurementType::Production, point, &contract, 3, amount(1.0));
        assert_eq!(record.row_layout(), RowLayout::Production);
    }
}

#[test]
fn consumption_under_an_unpriced_contract_is_recorded_with_fee_zero() {
    let zone = helsinki();
    let unpriced = ContractsConfig::new(vec![ContractConfig::from_local(
        "2022-01-01T00:00:00",
        None,
        ContractType::Unpriced,
        energy(),
        transfer(),
        None,
        &zone,
    )
    .unwrap()]);
    let series = data(vec![Some(1.0), Some(2.0)], "2022-08-01T00:00:00", "PT1H");
    let enriched =
        enrich(&series, MeasurementType::Consumption, &unpriced, &zone, |_| amount(80.0)).unwrap();
    assert_eq!(enriched.skipped, 0);
    assert_eq!(enriched.records.len(), 2);
    for record in &enriched.records {
        assert_eq!(record.contract_type, ContractType::Unpriced);
        assert_eq!(record.energy_fee, Some(amount(0.0)));
        assert_eq!(record.transfer_fee, amount(1.7));
        assert_eq!(record.row_layout(), RowLayout::ConsumptionWithFee);
        assert_eq!(record.stored_fees().energy_fee, Some(amount(0.0)));
    }
}
