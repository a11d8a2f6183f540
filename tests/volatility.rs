use sbv2vol::history::{Decimal, HistoryRow, HistoryStore};
use sbv2vol::oracle::{
    check_confidence_interval, check_staleness, oracle_gate, FeedSnapshot, DEFAULT_MAX_STALENESS,
};
use sbv2vol::series::{build_return_pairs, ReturnPair};
use sbv2vol::state::{calc_vol, initialize, read_price, record_volatility, SwitchBoardStoredData};
use sbv2vol::vol::{
    calc_vol_returns, is_daily, require_enough_returns, resolve_window, CalculateVolParams,
    ErrorCode, Window,
};

fn dec(m: i128) -> Decimal {
    Decimal { mantissa: m, scale: 0 }
}

fn row(t: i64, v: i128) -> HistoryRow {
    HistoryRow { timestamp: t, value: dec(v) }
}

fn store(rows: &[(i64, i128)]) -> HistoryStore {
    HistoryStore::from_rows(rows.iter().map(|&(t, v)| row(t, v)).collect()).unwrap()
}

fn to_f64(d: Decimal) -> f64 {
    d.mantissa as f64 / 10f64.powi(d.scale as i32)
}

fn population_std_dev(returns: &[f64]) -> f64 {
    let n = returns.len() as f64;
    let mean = returns.iter().sum::<f64>() / n;
    (returns.iter().map(|r| (mean - r) * (mean - r)).sum::<f64>() / n).sqrt()
}

fn returns_of(pairs: &[ReturnPair]) -> Vec<f64> {
    pairs
        .iter()
        .map(|p| (to_f64(p.current) - to_f64(p.previous)) / to_f64(p.current))
        .collect()
}

#[test]
fn lookup_finds_latest_row_at_or_before() {
    let h = store(&[(10, 1), (20, 2), (30, 3)]);
    assert_eq!(h.lookup(5), None);
    assert_eq!(h.lookup(10), Some(row(10, 1)));
    assert_eq!(h.lookup(19), Some(row(10, 1)));
    assert_eq!(h.lookup(20), Some(row(20, 2)));
    assert_eq!(h.lookup(1000), Some(row(30, 3)));
}

#[test]
fn lookup_in_empty_store() {
    let h = store(&[]);
    assert_eq!(h.lookup(0), None);
}

#[test]
fn from_rows_refuses_unordered_timestamps() {
    assert!(HistoryStore::from_rows(vec![row(20, 1), row(10, 2)]).is_none());
    assert!(HistoryStore::from_rows(vec![row(10, 1), row(10, 2)]).is_none());
    assert!(HistoryStore::from_rows(vec![row(10, 1), row(20, 2)]).is_some());
}

#[test]
fn from_ring_unrolls_a_wrapped_buffer() {
    let h = HistoryStore::from_ring(vec![row(40, 4), row(50, 5), row(20, 2), row(30, 3)], 1).unwrap();
    assert_eq!(h.rows, vec![row(20, 2), row(30, 3), row(40, 4), row(50, 5)]);
}

#[test]
fn from_ring_keeps_written_slots_of_unwrapped_buffer() {
    let h = HistoryStore::from_ring(vec![row(10, 1), row(20, 2), row(0, 0), row(0, 0)], 1).unwrap();
    assert_eq!(h.rows, vec![row(10, 1), row(20, 2)]);
}

#[test]
fn from_ring_empty_slot_at_index() {
    let h = HistoryStore::from_ring(vec![row(0, 100), row(0, 0)], 0).unwrap();
    assert!(h.rows.is_empty());
    assert!(HistoryStore::from_ring(vec![row(10, 1)], 1).is_none());
}

#[test]
fn three_day_example_returns_and_std_dev() {
    let h = store(&[(0, 100), (86400, 110), (172800, 100)]);
    let pairs = build_return_pairs(&h, 0, 172800, 86400);
    assert_eq!(
        pairs,
        vec![
            ReturnPair { previous: dec(100), current: dec(110) },
            ReturnPair { previous: dec(110), current: dec(100) },
        ]
    );
    let r = returns_of(&pairs);
    assert!((r[0] - 10.0 / 110.0).abs() < 1e-12);
    assert!((r[1] + 0.1).abs() < 1e-12);
    let mean = r.iter().sum::<f64>() / 2.0;
    assert!((mean + 0.004545).abs() < 1e-5);
    assert!((population_std_dev(&r) - 0.0955).abs() < 1e-4);
}

#[test]
fn three_day_example_through_ring_buffer() {
    let h = HistoryStore::from_ring(vec![row(0, 100), row(86400, 110), row(172800, 100)], 2).unwrap();
    let params = CalculateVolParams { interval: None, starttimestamp: Some(0), endtimestamp: None };
    let pairs = calc_vol_returns(&h, 172800, params).unwrap();
    assert_eq!(pairs.len(), 2);
    assert!((population_std_dev(&returns_of(&pairs)) - 0.0955).abs() < 1e-4);
}

#[test]
fn single_sample_at_zero_is_not_enough_data() {
    let h = HistoryStore::from_ring(vec![row(0, 100)], 0).unwrap();
    let params = CalculateVolParams {
        interval: Some(86400),
        starttimestamp: Some(0),
        endtimestamp: Some(864000),
    };
    assert_eq!(calc_vol_returns(&h, 864000, params), Err(ErrorCode::NotEnoughData));
}

#[test]
fn zero_sample_skipped_but_becomes_baseline() {
    let h = store(&[(0, 100), (10, 0), (20, 50), (30, 25)]);
    let pairs = build_return_pairs(&h, 0, 30, 10);
    assert_eq!(
        pairs,
        vec![
            ReturnPair { previous: dec(0), current: dec(50) },
            ReturnPair { previous: dec(50), current: dec(25) },
        ]
    );
    assert!(pairs.iter().all(|p| p.current.mantissa != 0));
}

#[test]
fn gap_keeps_baseline_and_repeats_last_sample() {
    let h = store(&[(5, 100), (25, 120)]);
    // Steps 0 (no sample), 10 and 20 (both 100), 30 (120).
    let pairs = build_return_pairs(&h, 0, 30, 10);
    assert_eq!(
        pairs,
        vec![
            ReturnPair { previous: dec(100), current: dec(100) },
            ReturnPair { previous: dec(100), current: dec(120) },
        ]
    );
}

#[test]
fn end_before_start_gives_no_pairs() {
    let h = store(&[(0, 100), (10, 110)]);
    assert!(build_return_pairs(&h, 20, 10, 5).is_empty());
}

#[test]
fn walk_stops_at_largest_timestamp() {
    let h = store(&[(i64::MAX - 10, 100), (i64::MAX - 5, 200), (i64::MAX, 400)]);
    let pairs = build_return_pairs(&h, i64::MAX - 10, i64::MAX, 5);
    assert_eq!(pairs.len(), 2);
    assert_eq!(pairs[1], ReturnPair { previous: dec(200), current: dec(400) });
}

#[test]
fn fewer_than_two_returns_refused() {
    assert_eq!(require_enough_returns(0), Err(ErrorCode::NotEnoughData));
    assert_eq!(require_enough_returns(1), Err(ErrorCode::NotEnoughData));
    assert_eq!(require_enough_returns(2), Ok(()));
}

#[test]
fn window_defaults() {
    let p = CalculateVolParams { interval: None, starttimestamp: None, endtimestamp: None };
    assert_eq!(
        resolve_window(p, 1_000_000),
        Ok(Window { start: 136_000, end: 1_000_000, interval: 86400 })
    );
    let p = CalculateVolParams { interval: Some(60), starttimestamp: None, endtimestamp: Some(900_000) };
    assert_eq!(resolve_window(p, 5), Ok(Window { start: 36_000, end: 900_000, interval: 60 }));
}

#[test]
fn window_errors() {
    let p = CalculateVolParams { interval: Some(0), starttimestamp: None, endtimestamp: None };
    assert_eq!(resolve_window(p, 1_000_000), Err(ErrorCode::Math));
    let p = CalculateVolParams { interval: None, starttimestamp: None, endtimestamp: None };
    assert_eq!(resolve_window(p, i64::MIN + 5), Err(ErrorCode::Math));
    let h = store(&[(0, 100)]);
    let p = CalculateVolParams { interval: Some(-1), starttimestamp: Some(0), endtimestamp: Some(10) };
    assert_eq!(calc_vol_returns(&h, 0, p), Err(ErrorCode::Math));
}

#[test]
fn daily_interval_is_annualised() {
    assert!(is_daily(86400));
    assert!(!is_daily(3600));
}

#[test]
fn staleness_boundary() {
    assert_eq!(check_staleness(1000, 1301, DEFAULT_MAX_STALENESS), Err(ErrorCode::StaleFeed));
    assert_eq!(check_staleness(1000, 1300, DEFAULT_MAX_STALENESS), Ok(()));
    assert_eq!(check_staleness(i64::MIN, i64::MAX, 300), Err(ErrorCode::StaleFeed));
}

#[test]
fn confidence_interval_compares_by_value() {
    let max = Decimal { mantissa: 2, scale: 1 };
    assert_eq!(check_confidence_interval(Decimal { mantissa: 15, scale: 2 }, max), Ok(()));
    assert_eq!(check_confidence_interval(Decimal { mantissa: 20, scale: 2 }, max), Ok(()));
    assert_eq!(
        check_confidence_interval(Decimal { mantissa: 25, scale: 2 }, max),
        Err(ErrorCode::ConfidenceIntervalExceeded)
    );
}

#[test]
fn confidence_interval_out_of_range_is_math_error() {
    let max = Decimal { mantissa: 2, scale: 1 };
    assert_eq!(check_confidence_interval(Decimal { mantissa: 1, scale: 29 }, max), Err(ErrorCode::Math));
    assert_eq!(check_confidence_interval(Decimal { mantissa: 1 << 96, scale: 0 }, max), Err(ErrorCode::Math));
}

#[test]
fn gate_checks_staleness_before_confidence() {
    let feed = FeedSnapshot { last_update: 0, std_deviation: Decimal { mantissa: 9, scale: 0 } };
    let tight = Some(Decimal { mantissa: 1, scale: 0 });
    assert_eq!(oracle_gate(&feed, 301, 300, tight), Err(ErrorCode::StaleFeed));
    assert_eq!(oracle_gate(&feed, 300, 300, tight), Err(ErrorCode::ConfidenceIntervalExceeded));
    assert_eq!(oracle_gate(&feed, 300, 300, None), Ok(()));
}

#[test]
fn initialize_zeroes_state() {
    let s = initialize(0i64);
    assert_eq!(s, SwitchBoardStoredData { current_price: 0, volatility: 0 });
}

#[test]
fn read_price_updates_only_on_success() {
    let mut s = initialize(0i64);
    let feed = FeedSnapshot { last_update: 1000, std_deviation: dec(0) };
    assert_eq!(read_price(&mut s, 42, &feed, 1300, 300, None), Ok(()));
    assert_eq!(s.current_price, 42);
    assert_eq!(read_price(&mut s, 43, &feed, 1301, 300, None), Err(ErrorCode::StaleFeed));
    assert_eq!(s, SwitchBoardStoredData { current_price: 42, volatility: 0 });
}

#[test]
fn failed_calc_vol_keeps_previous_volatility() {
    let h = store(&[(0, 100), (86400, 110), (172800, 100)]);
    let mut s = initialize(0.0f64);
    let wide = CalculateVolParams { interval: None, starttimestamp: Some(0), endtimestamp: Some(172800) };
    let vol = calc_vol_returns(&h, 172800, wide).map(|p| population_std_dev(&returns_of(&p)));
    assert_eq!(record_volatility(&mut s, vol), Ok(()));
    let kept = s.volatility;
    assert!((kept - 0.0955).abs() < 1e-4);
    let narrow = CalculateVolParams { interval: None, starttimestamp: Some(0), endtimestamp: Some(86400) };
    let vol = calc_vol_returns(&h, 172800, narrow).map(|p| population_std_dev(&returns_of(&p)));
    assert_eq!(record_volatility(&mut s, vol), Err(ErrorCode::NotEnoughData));
    assert_eq!(s.volatility, kept);
}

fn estimator(pairs: &Vec<ReturnPair>) -> Result<f64, ErrorCode> {
    Ok(population_std_dev(&returns_of(pairs)))
}

#[test]
fn calc_vol_stores_estimate_and_keeps_it_on_failure() {
    let h = store(&[(0, 100), (86400, 110), (172800, 100)]);
    let mut s = initialize(0.0f64);
    s.current_price = 7.5;
    let wide = CalculateVolParams { interval: None, starttimestamp: Some(0), endtimestamp: None };
    assert_eq!(calc_vol(&mut s, &h, 172800, wide, estimator), Ok(()));
    let kept = s.volatility;
    assert!((kept - 0.0955).abs() < 1e-4);
    assert_eq!(s.current_price, 7.5);
    let narrow = CalculateVolParams { interval: None, starttimestamp: Some(86400), endtimestamp: None };
    assert_eq!(calc_vol(&mut s, &h, 172800, narrow, estimator), Err(ErrorCode::NotEnoughData));
    assert_eq!(s, SwitchBoardStoredData { current_price: 7.5, volatility: kept });
}

#[test]
fn calc_vol_skips_estimator_without_enough_pairs() {
    let h = HistoryStore::from_ring(vec![row(0, 100)], 0).unwrap();
    let mut s = initialize(1i64);
    let params = CalculateVolParams { interval: None, starttimestamp: Some(0), endtimestamp: Some(864000) };
    let r = calc_vol(&mut s, &h, 864000, params, |_: &Vec<ReturnPair>| -> Result<i64, ErrorCode> {
        panic!("estimator called")
    });
    assert_eq!(r, Err(ErrorCode::NotEnoughData));
    assert_eq!(s, SwitchBoardStoredData { current_price: 1, volatility: 1 });
}

#[test]
fn calc_vol_estimator_failure_keeps_state() {
    let h = store(&[(0, 100), (86400, 110), (172800, 100)]);
    let mut s = initialize(3i64);
    let params = CalculateVolParams { interval: None, starttimestamp: Some(0), endtimestamp: None };
    let r = calc_vol(&mut s, &h, 172800, params, |p: &Vec<ReturnPair>| -> Result<i64, ErrorCode> {
        assert_eq!(p.len(), 2);
        Err(ErrorCode::Math)
    });
    assert_eq!(r, Err(ErrorCode::Math));
    assert_eq!(s, SwitchBoardStoredData { current_price: 3, volatility: 3 });
}
