use twap_oracle::errors::{AggregationError, SampleError};
use twap_oracle::sampler::{price_from_reserves, PRICE_SCALE};
use twap_oracle::window::{
    ObservationWindow, PriceObservation, RecordOutcome, TwapAggregator,
};

fn obs(price: u64, timestamp: u64, block_number: u64) -> PriceObservation {
    PriceObservation { price, timestamp, block_number }
}

#[test]
fn price_is_scaled_reserve_ratio() {
    assert_eq!(price_from_reserves(1000, 2000).unwrap(), 2 * PRICE_SCALE as u64);
    assert_eq!(price_from_reserves(3, 1).unwrap(), PRICE_SCALE as u64 / 3);
}

#[test]
fn zero_reserve_is_empty_pool() {
    assert_eq!(price_from_reserves(0, 5).unwrap_err(), SampleError::EmptyPoolError);
    assert_eq!(price_from_reserves(5, 0).unwrap_err(), SampleError::EmptyPoolError);
    assert_eq!(price_from_reserves(0, 0).unwrap_err(), SampleError::EmptyPoolError);
}

#[test]
fn extreme_ratio_is_malformed() {
    assert_eq!(
        price_from_reserves(1, u64::MAX).unwrap_err(),
        SampleError::MalformedResponseError
    );
}

#[test]
fn single_observation_has_insufficient_coverage() {
    let mut w = ObservationWindow::new(600);
    assert_eq!(w.record(obs(100, 0, 1)), RecordOutcome::Recorded);
    assert_eq!(
        w.twap(100, 10).unwrap_err(),
        AggregationError::InsufficientCoverageError
    );
}

#[test]
fn span_equal_to_minimum_coverage_succeeds() {
    let mut w = ObservationWindow::new(600);
    w.record(obs(100, 0, 1));
    w.record(obs(200, 10, 2));
    // Span is exactly the minimum: accepted (boundary inclusive); the last
    // price holds for zero seconds, so the average is the first price.
    assert_eq!(w.twap(10, 10).unwrap(), (100, 10));
}

#[test]
fn span_below_minimum_coverage_fails() {
    let mut w = ObservationWindow::new(600);
    w.record(obs(100, 0, 1));
    w.record(obs(200, 9, 2));
    assert_eq!(
        w.twap(9, 10).unwrap_err(),
        AggregationError::InsufficientCoverageError
    );
}

#[test]
fn twap_is_exact_weighted_average() {
    let mut w = ObservationWindow::new(1000);
    w.record(obs(100, 0, 1));
    w.record(obs(300, 100, 2));
    w.record(obs(200, 200, 3));
    // (100*100 + 300*100 + 200*50) / 250 = 50000 / 250 = 200.
    let (price, coverage) = w.twap(250, 100).unwrap();
    assert_eq!(price, 200);
    assert_eq!(coverage, 250);
}

#[test]
fn twap_lies_between_extreme_prices() {
    let mut w = ObservationWindow::new(10_000);
    w.record(obs(157, 0, 1));
    w.record(obs(9_731, 313, 2));
    w.record(obs(4_001, 1_001, 3));
    w.record(obs(8_888, 2_000, 4));
    let (price, _) = w.twap(2_500, 1).unwrap();
    assert!(price >= 157 && price <= 9_731);
}

#[test]
fn out_of_order_observation_is_rejected() {
    let mut w = ObservationWindow::new(600);
    assert_eq!(w.record(obs(100, 100, 1)), RecordOutcome::Recorded);
    assert_eq!(w.record(obs(200, 50, 2)), RecordOutcome::RejectedOutOfOrder);
    assert_eq!(w.observations().len(), 1);
    assert_eq!(w.observations()[0].price, 100);
}

#[test]
fn equal_timestamp_observation_is_recorded() {
    let mut w = ObservationWindow::new(600);
    assert_eq!(w.record(obs(100, 100, 1)), RecordOutcome::Recorded);
    assert_eq!(w.record(obs(200, 100, 2)), RecordOutcome::Recorded);
    assert_eq!(w.observations().len(), 2);
}

#[test]
fn trimming_removes_only_strictly_older_entries() {
    let mut w = ObservationWindow::new(60);
    w.record(obs(1, 39, 1));
    w.record(obs(2, 40, 2));
    w.record(obs(3, 90, 3));
    // Entries strictly older than 100 - 60 = 40 go; the one at exactly 40
    // stays, so it can still anchor the coverage span.
    w.evict_stale(100);
    assert_eq!(w.observations().len(), 2);
    assert_eq!(w.observations()[0].timestamp, 40);
    assert_eq!(w.observations()[1].timestamp, 90);
}

#[test]
fn record_trims_relative_to_new_observation() {
    let mut w = ObservationWindow::new(60);
    w.record(obs(1, 0, 1));
    w.record(obs(2, 50, 2));
    w.record(obs(3, 100, 3));
    // Recording at 100 drops the entry at 0 (older than 100 - 60) and
    // keeps the one at 50.
    assert_eq!(w.observations().len(), 2);
    assert_eq!(w.observations()[0].timestamp, 50);
}

#[test]
fn aggregator_windows_are_pool_isolated() {
    let mut agg = TwapAggregator::new(2, 600, 10);
    agg.record(0, obs(100, 0, 1));
    agg.record(0, obs(200, 10, 2));
    assert_eq!(agg.observations(0).len(), 2);
    assert_eq!(agg.observations(1).len(), 0);
    let tr = agg.compute(0, 10).unwrap();
    assert_eq!(tr.pool, 0);
    assert_eq!(tr.price, 100);
    assert_eq!(tr.coverage, 10);
    assert_eq!(tr.computed_at, 10);
    assert_eq!(
        agg.compute(1, 10).unwrap_err(),
        AggregationError::InsufficientCoverageError
    );
}

#[test]
fn aggregator_uses_chain_clock_when_ahead() {
    let mut agg = TwapAggregator::new(1, 600, 10);
    agg.record(0, obs(100, 0, 1));
    agg.record(0, obs(200, 20, 2));
    // The local clock lags the chain timestamp; the TWAP is evaluated at
    // the newest observation instead.
    let tr = agg.compute(0, 5).unwrap();
    assert_eq!(tr.price, 100);
    assert_eq!(tr.coverage, 20);
    assert_eq!(tr.computed_at, 5);
}
