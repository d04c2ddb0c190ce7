use astronomy::time::Time;
use astronomy::units::{Quantity, Unit, UnitProduct, HERTZ, JOULE, METRE, SECOND};
use gwrs::channel::Channel;
use gwrs::error::DataError;
use gwrs::timeseries::{reciprocal_in, TimeSeriesBaseBuilder};
use ndarray::arr1;

fn bare(values: &[f64]) -> Quantity {
    Quantity::new(arr1(values), Unit::new("", 1.0, UnitProduct::zero()))
}

#[test]
fn test_timeseriesbase_creation_t0_dt() {
    let t0_time = Time::from_gps_seconds(1126259446.0);
    let dt_quantity = Quantity::new(arr1(&[0.000244140625]), SECOND.clone());
    let channel = Channel::new("H1:GW-STRAIN", None, None, None, None, None, None).unwrap();

    let ts = TimeSeriesBaseBuilder::new()
        .value(bare(&[1.0, 2.0, 3.0, 4.0]))
        .unit(METRE.clone())
        .epoch(t0_time)
        .dt(dt_quantity.clone())
        .name("Strain Data".to_string())
        .channel(channel)
        .build()
        .unwrap();

    assert_eq!(ts.value().value, arr1(&[1.0, 2.0, 3.0, 4.0]));
    assert_eq!(ts.unit(), &METRE);
    assert_eq!(ts.get_name(), Some("Strain Data"));
    assert_eq!(ts.get_channel().unwrap().get_name(), "H1:GW-STRAIN");

    assert_eq!(
        ts.get_t0().unwrap().value,
        arr1(&[t0_time.as_gps_seconds_f64()])
    );
    assert_eq!(ts.get_t0().unwrap().unit, SECOND);
    assert_eq!(ts.get_dt().unwrap(), &dt_quantity);
    assert_eq!(
        ts.get_times().unwrap().value,
        arr1(&[
            t0_time.as_gps_seconds_f64(),
            t0_time.as_gps_seconds_f64() + dt_quantity.value[0],
            t0_time.as_gps_seconds_f64() + 2.0 * dt_quantity.value[0],
            t0_time.as_gps_seconds_f64() + 3.0 * dt_quantity.value[0],
        ])
    );
    assert_eq!(ts.get_times().unwrap().unit, SECOND);

    assert_eq!(ts.get_epoch().unwrap(), t0_time);
    assert_eq!(
        ts.get_sample_rate().unwrap().value[0],
        1.0 / dt_quantity.value[0]
    );
    assert_eq!(ts.get_sample_rate().unwrap().unit, HERTZ);

    println!("TimeSeriesBase (t0, dt): {:?}", ts);
}

#[test]
fn test_timeseriesbase_creation_t0_sample_rate() {
    let raw_t0 = 123456789.0;
    let sr_quantity = Quantity::new(arr1(&[4096.0]), HERTZ.clone());

    let ts = TimeSeriesBaseBuilder::new()
        .value(bare(&[1.0, 2.0, 3.0]))
        .unit(JOULE.clone())
        .t0(bare(&[raw_t0]))
        .sample_rate(sr_quantity.clone())
        .name("Energy Reading".to_string())
        .build()
        .unwrap();

    assert_eq!(ts.get_t0().unwrap().value, arr1(&[raw_t0]));
    assert_eq!(ts.get_t0().unwrap().unit, SECOND);
    assert_eq!(ts.get_sample_rate().unwrap(), sr_quantity);
    assert_eq!(ts.get_dt().unwrap().value[0], 1.0 / 4096.0);
    assert_eq!(ts.get_dt().unwrap().unit, SECOND);
    assert_eq!(ts.get_epoch().unwrap(), Time::from_gps_seconds(raw_t0));

    println!("TimeSeriesBase (t0, sample_rate): {:?}", ts);
}

#[test]
fn test_timeseriesbase_creation_times() {
    let explicit_times = Quantity::new(arr1(&[100.0, 101.0, 102.0]), SECOND.clone());

    let ts = TimeSeriesBaseBuilder::new()
        .value(bare(&[10.0, 11.0, 12.0]))
        .unit(METRE.clone())
        .times(explicit_times.clone())
        .name("Known Times".to_string())
        .build()
        .unwrap();

    assert_eq!(ts.get_times().unwrap(), &explicit_times);
    assert_eq!(ts.get_t0(), None);
    assert_eq!(ts.get_dt(), None);
    assert_eq!(ts.get_epoch(), None);
    assert!(ts.get_sample_rate().is_none());

    println!("TimeSeriesBase (times): {:?}", ts);
}

#[test]
fn test_timeseriesbase_arithmetic_propagation() {
    let t0_time = Time::from_gps_seconds(100.0);
    let dt_quantity = Quantity::new(arr1(&[0.1]), SECOND.clone());

    let ts1 = TimeSeriesBaseBuilder::new()
        .value(bare(&[1.0, 2.0]))
        .unit(METRE.clone())
        .epoch(t0_time)
        .dt(dt_quantity.clone())
        .name("TS1".to_string())
        .build()
        .unwrap();

    let ts2 = TimeSeriesBaseBuilder::new()
        .value(bare(&[5.0, 6.0]))
        .unit(METRE.clone())
        .epoch(Time::from_gps_seconds(100.0))
        .dt(dt_quantity.clone())
        .name("TS2".to_string())
        .build()
        .unwrap();

    let sum_ts = (ts1.clone() + ts2).unwrap();

    assert_eq!(sum_ts.value().value, arr1(&[6.0, 8.0]));
    assert_eq!(sum_ts.unit(), &METRE);
    assert_eq!(sum_ts.get_name(), ts1.get_name());
    assert_eq!(sum_ts.get_epoch(), ts1.get_epoch());
    assert_eq!(sum_ts.get_dt().unwrap(), ts1.get_dt().unwrap());
}

#[test]
fn duration_spans_first_to_last_sample() {
    let ts = TimeSeriesBaseBuilder::new()
        .value(bare(&[1.0, 2.0, 3.0, 4.0, 5.0]))
        .unit(METRE)
        .epoch(Time::from_gps_seconds(0.0))
        .dt(Quantity::new(arr1(&[1.0]), SECOND))
        .build()
        .unwrap();
    let d = ts.duration().unwrap();
    assert_eq!(d.value, arr1(&[4.0]));
    assert_eq!(d.unit, SECOND);

    let given = TimeSeriesBaseBuilder::new()
        .value(bare(&[1.0, 2.0, 3.0]))
        .times(Quantity::new(arr1(&[100.0, 101.5, 107.25]), SECOND))
        .build()
        .unwrap();
    assert_eq!(given.duration().unwrap().value, arr1(&[7.25]));
}

#[test]
fn duration_of_an_empty_axis_is_zero() {
    let ts = TimeSeriesBaseBuilder::new()
        .value(bare(&[]))
        .times(Quantity::new(arr1(&[]), SECOND))
        .build()
        .unwrap();
    let d = ts.duration().unwrap();
    assert_eq!(d.value, arr1(&[0.0]));
    assert!(d.value[0].is_sign_positive());
    assert_eq!(d.unit, SECOND);
}

#[test]
fn duration_needs_an_axis() {
    let ts = TimeSeriesBaseBuilder::new().value(bare(&[1.0])).build().unwrap();
    assert!(ts.duration().is_none());
    assert!(ts.get_times().is_none());
    assert_eq!(ts.unit(), &Unit::new("", 1.0, UnitProduct::zero()));
}

#[test]
fn missing_value_is_refused() {
    let result = TimeSeriesBaseBuilder::new().unit(METRE).build();
    assert_eq!(
        result.unwrap_err(),
        DataError::InvalidQuantity("Value is required to build TimeSeriesBase".to_string())
    );
}

#[test]
fn times_of_the_wrong_length_are_refused() {
    let result = TimeSeriesBaseBuilder::new()
        .value(bare(&[1.0, 2.0, 3.0]))
        .times(Quantity::new(arr1(&[0.0, 1.0]), SECOND))
        .build();
    assert_eq!(
        result.unwrap_err(),
        DataError::MismatchError("Index length (2) must match value length (3)".to_string())
    );
}

#[test]
fn sample_rate_of_several_values_is_refused() {
    let result = TimeSeriesBaseBuilder::new()
        .value(bare(&[1.0, 2.0, 3.0]))
        .t0(bare(&[0.0]))
        .sample_rate(Quantity::new(arr1(&[1.0, 2.0]), HERTZ))
        .build();
    assert_eq!(
        result.unwrap_err(),
        DataError::InvalidQuantity("Sample rate must be a scalar quantity.".to_string())
    );
}

#[test]
fn sample_rate_of_zero_is_refused() {
    let result = TimeSeriesBaseBuilder::new()
        .value(bare(&[1.0, 2.0, 3.0]))
        .sample_rate(Quantity::new(arr1(&[0.0]), HERTZ))
        .build();
    assert_eq!(result.unwrap_err(), DataError::DivideByZero);
}

#[test]
fn sample_rate_that_is_no_frequency_is_refused() {
    let result = TimeSeriesBaseBuilder::new()
        .value(bare(&[1.0, 2.0, 3.0]))
        .sample_rate(Quantity::new(arr1(&[2.0]), METRE))
        .build();
    assert_eq!(
        result.unwrap_err(),
        DataError::IncompatibleUnits { from: "/m".to_string(), to: "s".to_string() }
    );
}

#[test]
fn epoch_count_of_several_values_is_refused() {
    let result = TimeSeriesBaseBuilder::new()
        .value(bare(&[1.0, 2.0, 3.0]))
        .t0(bare(&[0.0, 1.0]))
        .build();
    assert_eq!(
        result.unwrap_err(),
        DataError::InvalidQuantity("t0 must be a scalar quantity.".to_string())
    );
}

#[test]
fn step_that_is_no_time_is_refused() {
    let result = TimeSeriesBaseBuilder::new()
        .value(bare(&[1.0, 2.0, 3.0]))
        .t0(bare(&[0.0]))
        .dt(Quantity::new(arr1(&[1.0]), METRE))
        .build();
    assert_eq!(
        result.unwrap_err(),
        DataError::IncompatibleUnits { from: "s".to_string(), to: "m".to_string() }
    );
    let result = TimeSeriesBaseBuilder::new()
        .value(bare(&[1.0, 2.0, 3.0]))
        .t0(bare(&[0.0]))
        .dt(Quantity::new(arr1(&[1.0, 2.0]), SECOND))
        .build();
    assert_eq!(
        result.unwrap_err(),
        DataError::MismatchError("x0 and dx must be single-value quantities".to_string())
    );
}

#[test]
fn the_time_wins_over_the_count_of_seconds() {
    let ts = TimeSeriesBaseBuilder::new()
        .value(bare(&[1.0, 2.0]))
        .epoch(Time::from_gps_seconds(50.0))
        .t0(bare(&[7.0, 8.0]))
        .sample_rate(Quantity::new(arr1(&[4.0]), HERTZ))
        .dt(Quantity::new(arr1(&[2.0]), SECOND))
        .build()
        .unwrap();
    assert_eq!(ts.get_t0().unwrap().value, arr1(&[50.0]));
    assert_eq!(ts.get_dt().unwrap().value, arr1(&[2.0]));
    assert_eq!(ts.get_times().unwrap().value, arr1(&[50.0, 52.0]));
    assert_eq!(ts.get_sample_rate().unwrap().value, arr1(&[0.5]));
}

#[test]
fn epoch_that_no_time_can_hold_is_absent() {
    for odd in [f64::NAN, f64::INFINITY, 1.0e300] {
        let ts = TimeSeriesBaseBuilder::new()
            .value(bare(&[1.0, 2.0]))
            .t0(bare(&[odd]))
            .build()
            .unwrap();
        assert!(ts.get_t0().is_some());
        assert_eq!(ts.get_epoch(), None);
    }
}

#[test]
fn reciprocal_of_a_period_is_a_rate() {
    let rate = reciprocal_in(Quantity::new(arr1(&[0.25]), SECOND), &HERTZ).unwrap();
    assert_eq!(rate.value, arr1(&[4.0]));
    assert_eq!(rate.unit, HERTZ);
    assert_eq!(
        reciprocal_in(Quantity::new(arr1(&[-0.0]), SECOND), &HERTZ).unwrap_err(),
        DataError::DivideByZero
    );
    assert_eq!(
        reciprocal_in(Quantity::new(arr1(&[2.0]), SECOND), &SECOND).unwrap_err(),
        DataError::IncompatibleUnits { from: "/s".to_string(), to: "s".to_string() }
    );
}

#[test]
fn time_series_arithmetic_of_every_kind() {
    let make = |v: &[f64], unit: Unit| {
        TimeSeriesBaseBuilder::new()
            .value(bare(v))
            .unit(unit)
            .t0(bare(&[10.0]))
            .dt(Quantity::new(arr1(&[1.0]), SECOND))
            .build()
            .unwrap()
    };
    let d = (make(&[5.0, 6.0], METRE) - make(&[3.0, 4.0], METRE)).unwrap();
    assert_eq!(d.value().value, arr1(&[2.0, 2.0]));
    assert_eq!(d.get_times().unwrap().value, arr1(&[10.0, 11.0]));
    let p = (make(&[5.0, 6.0], METRE) * make(&[3.0, 4.0], SECOND)).unwrap();
    assert_eq!(p.value().value, arr1(&[15.0, 24.0]));
    let q = (make(&[6.0, 8.0], METRE) / make(&[3.0, 4.0], SECOND)).unwrap();
    assert_eq!(q.value().value, arr1(&[2.0, 2.0]));
    assert_eq!(q.get_epoch(), Some(Time::from_gps_seconds(10.0)));
    assert_eq!(
        (make(&[6.0], METRE) / make(&[0.0], SECOND)).unwrap_err(),
        DataError::DivideByZero
    );
    assert!((make(&[6.0], METRE) + make(&[1.0], SECOND)).is_err());
}
