use twap_oracle::address::{parse_address, Address};
use twap_oracle::config::Config;
use twap_oracle::coordinator::{
    backoff_delay, Action, Coordinator, PoolEvent, PoolState,
};
use twap_oracle::errors::{
    ConfigError, ErrorClass, SampleError, SubmitError,
};

fn addr(last_byte: u8) -> Address {
    let mut s = b"0x00000000000000000000000000000000000000".to_vec();
    let hi = b"0123456789abcdef"[(last_byte >> 4) as usize];
    let lo = b"0123456789abcdef"[(last_byte & 0x0f) as usize];
    s.push(hi);
    s.push(lo);
    parse_address(&s).unwrap()
}

/// sampling every 300 s, update every 600 s, window 600 s, minimum
/// coverage 600 s, freshness 60 s, backoff 1..8 s, 3 attempts.
fn two_pool_config() -> Config {
    Config::new(addr(0xff), vec![addr(1), addr(2)], 300, 600, 600, 600, 60, 1, 8, 3, 1).unwrap()
}

#[test]
fn backoff_doubles_and_caps() {
    assert_eq!(backoff_delay(1, 8, 0), 1);
    assert_eq!(backoff_delay(1, 8, 1), 2);
    assert_eq!(backoff_delay(1, 8, 2), 4);
    assert_eq!(backoff_delay(1, 8, 3), 8);
    assert_eq!(backoff_delay(1, 8, 9), 8);
    assert_eq!(backoff_delay(5, 8, 1), 8);
    assert_eq!(backoff_delay(10, 8, 0), 8);
}

#[test]
fn config_rejects_each_invalid_group() {
    let a = addr(1);
    assert_eq!(
        Config::new(a.clone(), vec![], 1, 1, 10, 5, 1, 1, 2, 1, 1).unwrap_err(),
        ConfigError::EmptyPoolList
    );
    assert_eq!(
        Config::new(a.clone(), vec![a.clone()], 0, 1, 10, 5, 1, 1, 2, 1, 1).unwrap_err(),
        ConfigError::InvalidInterval
    );
    assert_eq!(
        Config::new(a.clone(), vec![a.clone()], 1, 1, 10, 11, 1, 1, 2, 1, 1).unwrap_err(),
        ConfigError::InvalidCoverage
    );
    assert_eq!(
        Config::new(a.clone(), vec![a.clone()], 1, 1, 10, 5, 1, 3, 2, 1, 1).unwrap_err(),
        ConfigError::InvalidRetryPolicy
    );
    assert!(Config::new(a.clone(), vec![a.clone()], 1, 1, 10, 5, 1, 1, 2, 1, 1).is_ok());
}

#[test]
fn error_classes_follow_the_taxonomy() {
    assert_eq!(SampleError::NetworkError.class(), ErrorClass::Transient);
    assert_eq!(SampleError::EmptyPoolError.class(), ErrorClass::DataQuality);
    assert_eq!(SampleError::MalformedResponseError.class(), ErrorClass::Transient);
    assert_eq!(SubmitError::EncodingError.class(), ErrorClass::Integrity);
    assert_eq!(SubmitError::SignerError.class(), ErrorClass::Integrity);
    assert_eq!(SubmitError::SubmissionError.class(), ErrorClass::Transient);
    assert_eq!(SubmitError::ReceiptTimeoutError.class(), ErrorClass::Transient);
    assert_eq!(ConfigError::EmptyPoolList.class(), ErrorClass::Configuration);
}

#[test]
fn two_pool_scenario_with_retries_and_an_empty_pool() {
    let mut c = Coordinator::new(two_pool_config());
    let a = 0;
    let b = 1;

    // Pool A, cycle one: two network failures, then a sample at t = 0.
    assert_eq!(c.step(a, PoolEvent::Tick, 0), Action::StartSample);
    assert_eq!(
        c.step(a, PoolEvent::SampleFailed { error: SampleError::NetworkError }, 0),
        Action::Wait
    );
    assert!(matches!(c.pipeline(a).state, PoolState::Failed { .. }));
    assert_eq!(c.step(a, PoolEvent::Tick, 1), Action::Wait); // backoff expires
    assert_eq!(c.pipeline(a).state, PoolState::Idle);
    assert_eq!(c.step(a, PoolEvent::Tick, 1), Action::StartSample); // retry
    assert_eq!(
        c.step(a, PoolEvent::SampleFailed { error: SampleError::NetworkError }, 1),
        Action::Wait
    );
    assert_eq!(c.step(a, PoolEvent::Tick, 3), Action::Wait);
    assert_eq!(c.step(a, PoolEvent::Tick, 3), Action::StartSample);
    assert_eq!(
        c.step(
            a,
            PoolEvent::SampleSucceeded { price: 100, timestamp: 0, block_number: 1 },
            3,
        ),
        Action::Wait
    );
    assert_eq!(c.pipeline(a).state, PoolState::Recorded);

    // Pool B fails with an empty pool every cycle and is skipped; pool A
    // is untouched by pool B's failures.
    assert_eq!(c.step(b, PoolEvent::Tick, 3), Action::StartSample);
    assert_eq!(
        c.step(b, PoolEvent::SampleFailed { error: SampleError::EmptyPoolError }, 3),
        Action::SkipCycle { kind: ErrorClass::DataQuality }
    );
    assert_eq!(c.pipeline(b).state, PoolState::Idle);
    assert_eq!(c.pipeline(a).state, PoolState::Recorded);

    // Pool A, cycle two: price 102 at t = 300; coverage still short.
    assert_eq!(c.step(a, PoolEvent::Tick, 303), Action::StartSample);
    assert_eq!(
        c.step(
            a,
            PoolEvent::SampleSucceeded { price: 102, timestamp: 300, block_number: 2 },
            303,
        ),
        Action::Wait
    );

    // Pool A, cycle three: price 101 at t = 600; window now spans 600 s,
    // the TWAP is due and is the exact time-weighted average
    // (100*300 + 102*300 + 101*3) / 603 = 101.
    assert_eq!(c.step(a, PoolEvent::Tick, 603), Action::StartSample);
    assert_eq!(
        c.step(
            a,
            PoolEvent::SampleSucceeded { price: 101, timestamp: 600, block_number: 3 },
            603,
        ),
        Action::ReadOracleTimestamp
    );
    let result = match c.pipeline(a).state {
        PoolState::ReadyToSubmit { result } => result,
        other => panic!("expected ReadyToSubmit, got {:?}", other),
    };
    assert_eq!(result.price, 101);
    assert_eq!(result.coverage, 603);
    assert_eq!(result.computed_at, 603);

    // The check passes (fresh, newer than the oracle) and the update is
    // signed, submitted and confirmed.
    assert_eq!(
        c.step(a, PoolEvent::OracleTimestamp { last_update: 0 }, 603),
        Action::Sign { result }
    );
    assert_eq!(c.step(a, PoolEvent::SignSucceeded, 603), Action::Submit);
    assert_eq!(c.step(a, PoolEvent::SubmitSucceeded, 604), Action::Wait);
    assert_eq!(c.pipeline(a).state, PoolState::Idle);

    // Pool B keeps being skipped, still without affecting pool A.
    assert_eq!(c.step(b, PoolEvent::Tick, 604), Action::StartSample);
    assert_eq!(
        c.step(b, PoolEvent::SampleFailed { error: SampleError::EmptyPoolError }, 604),
        Action::SkipCycle { kind: ErrorClass::DataQuality }
    );
    assert_eq!(c.pipeline(a).state, PoolState::Idle);
}

#[test]
fn duplicate_oracle_timestamp_ends_the_cycle_without_a_write() {
    let mut c = Coordinator::new(two_pool_config());
    c.step(0, PoolEvent::Tick, 0);
    c.step(0, PoolEvent::SampleSucceeded { price: 100, timestamp: 0, block_number: 1 }, 0);
    c.step(0, PoolEvent::Tick, 600);
    assert_eq!(
        c.step(
            0,
            PoolEvent::SampleSucceeded { price: 100, timestamp: 600, block_number: 2 },
            600,
        ),
        Action::ReadOracleTimestamp
    );
    // The oracle already holds an update as new as this one: skipped, no
    // signing, cycle closed.
    assert_eq!(
        c.step(0, PoolEvent::OracleTimestamp { last_update: 600 }, 600),
        Action::SkipCycle { kind: ErrorClass::DataQuality }
    );
    assert_eq!(c.pipeline(0).state, PoolState::Idle);
}

#[test]
fn integrity_failure_halts_submissions_but_not_sampling() {
    let mut c = Coordinator::new(two_pool_config());
    c.step(0, PoolEvent::Tick, 0);
    c.step(0, PoolEvent::SampleSucceeded { price: 100, timestamp: 0, block_number: 1 }, 0);
    c.step(0, PoolEvent::Tick, 600);
    c.step(0, PoolEvent::SampleSucceeded { price: 100, timestamp: 600, block_number: 2 }, 600);
    c.step(0, PoolEvent::OracleTimestamp { last_update: 0 }, 600);
    assert_eq!(
        c.step(0, PoolEvent::SubmitFailed { error: SubmitError::SignerError }, 600),
        Action::HaltSubmissions { kind: ErrorClass::Integrity }
    );
    assert!(c.pipeline(0).halted);
    // Sampling continues for the halted pool...
    assert_eq!(c.step(0, PoolEvent::Tick, 900), Action::StartSample);
    // ...but no further update is attempted.
    assert_eq!(
        c.step(
            0,
            PoolEvent::SampleSucceeded { price: 100, timestamp: 900, block_number: 3 },
            900,
        ),
        Action::Wait
    );
    assert_eq!(c.pipeline(0).state, PoolState::Recorded);
}

#[test]
fn shutdown_after_signing_aborts_before_submission() {
    let mut c = Coordinator::new(two_pool_config());
    c.step(0, PoolEvent::Tick, 0);
    c.step(0, PoolEvent::SampleSucceeded { price: 100, timestamp: 0, block_number: 1 }, 0);
    c.step(0, PoolEvent::Tick, 600);
    c.step(0, PoolEvent::SampleSucceeded { price: 100, timestamp: 600, block_number: 2 }, 600);
    c.step(0, PoolEvent::OracleTimestamp { last_update: 0 }, 600);
    assert!(matches!(c.pipeline(0).state, PoolState::Signing { .. }));
    // Shutdown arrives after signing but before the transaction goes out:
    // the submission is aborted, and the abort is recorded.
    c.request_shutdown();
    assert_eq!(c.step(0, PoolEvent::SignSucceeded, 600), Action::Wait);
    assert_eq!(c.pipeline(0).state, PoolState::ShutDown { submitted: false });
    // A further event changes nothing.
    assert_eq!(c.step(0, PoolEvent::Tick, 700), Action::Wait);
    assert_eq!(c.pipeline(0).state, PoolState::ShutDown { submitted: false });
}

#[test]
fn shutdown_mid_submission_records_the_outcome() {
    let mut c = Coordinator::new(two_pool_config());
    c.step(0, PoolEvent::Tick, 0);
    c.step(0, PoolEvent::SampleSucceeded { price: 100, timestamp: 0, block_number: 1 }, 0);
    c.step(0, PoolEvent::Tick, 600);
    c.step(0, PoolEvent::SampleSucceeded { price: 100, timestamp: 600, block_number: 2 }, 600);
    c.step(0, PoolEvent::OracleTimestamp { last_update: 0 }, 600);
    assert_eq!(c.step(0, PoolEvent::SignSucceeded, 600), Action::Submit);
    // The transaction is in flight when shutdown arrives: its outcome is
    // awaited and recorded.
    c.request_shutdown();
    assert_eq!(c.step(0, PoolEvent::Tick, 601), Action::Wait);
    assert!(matches!(c.pipeline(0).state, PoolState::Submitting { .. }));
    assert_eq!(c.step(0, PoolEvent::SubmitSucceeded, 602), Action::Wait);
    assert_eq!(c.pipeline(0).state, PoolState::ShutDown { submitted: true });
}

/// Like [`two_pool_config`] but with a 10000 s window, so that coverage
/// survives while submission retries re-sample.
fn wide_window_config() -> Config {
    Config::new(addr(0xff), vec![addr(1), addr(2)], 300, 600, 10_000, 600, 60, 1, 8, 3, 1).unwrap()
}

#[test]
fn submission_retries_then_skips_the_cycle() {
    let mut c = Coordinator::new(wide_window_config());
    c.step(0, PoolEvent::Tick, 0);
    c.step(0, PoolEvent::SampleSucceeded { price: 100, timestamp: 0, block_number: 1 }, 0);
    c.step(0, PoolEvent::Tick, 600);
    c.step(0, PoolEvent::SampleSucceeded { price: 100, timestamp: 600, block_number: 2 }, 600);
    c.step(0, PoolEvent::OracleTimestamp { last_update: 0 }, 600);
    c.step(0, PoolEvent::SignSucceeded, 600);
    // Two transient submission failures retry with backoff; the third
    // exhausts the attempt budget and skips the cycle.
    assert_eq!(
        c.step(0, PoolEvent::SubmitFailed { error: SubmitError::SubmissionError }, 600),
        Action::Wait
    );
    assert!(matches!(c.pipeline(0).state, PoolState::Failed { .. }));
    c.step(0, PoolEvent::Tick, 602);
    c.step(0, PoolEvent::Tick, 602);
    c.step(0, PoolEvent::SampleSucceeded { price: 100, timestamp: 601, block_number: 3 }, 602);
    c.step(0, PoolEvent::OracleTimestamp { last_update: 0 }, 602);
    c.step(0, PoolEvent::SignSucceeded, 602);
    assert_eq!(
        c.step(0, PoolEvent::SubmitFailed { error: SubmitError::SubmissionError }, 602),
        Action::Wait
    );
    c.step(0, PoolEvent::Tick, 610);
    c.step(0, PoolEvent::Tick, 610);
    c.step(0, PoolEvent::SampleSucceeded { price: 100, timestamp: 602, block_number: 4 }, 610);
    c.step(0, PoolEvent::OracleTimestamp { last_update: 0 }, 610);
    c.step(0, PoolEvent::SignSucceeded, 610);
    assert_eq!(
        c.step(0, PoolEvent::SubmitFailed { error: SubmitError::SubmissionError }, 610),
        Action::SkipCycle { kind: ErrorClass::Transient }
    );
    assert_eq!(c.pipeline(0).state, PoolState::Idle);
}

#[test]
fn stale_result_is_dropped_not_submitted() {
    let mut c = Coordinator::new(two_pool_config());
    c.step(0, PoolEvent::Tick, 0);
    c.step(0, PoolEvent::SampleSucceeded { price: 100, timestamp: 0, block_number: 1 }, 0);
    c.step(0, PoolEvent::Tick, 600);
    c.step(0, PoolEvent::SampleSucceeded { price: 100, timestamp: 600, block_number: 2 }, 600);
    // The oracle read takes so long that the result (computed at 600) is
    // 100 s old when the answer arrives, past the 60 s freshness bound:
    // the result is dropped for recomputation, never signed.
    assert_eq!(
        c.step(0, PoolEvent::OracleTimestamp { last_update: 0 }, 700),
        Action::SkipCycle { kind: ErrorClass::DataQuality }
    );
    assert_eq!(c.pipeline(0).state, PoolState::Recorded);
}

#[test]
fn malformed_response_is_retried_once_then_escalated() {
    let mut c = Coordinator::new(two_pool_config());
    assert_eq!(c.step(0, PoolEvent::Tick, 0), Action::StartSample);
    // First malformed response: retried once, with backoff.
    assert_eq!(
        c.step(0, PoolEvent::SampleFailed { error: SampleError::MalformedResponseError }, 0),
        Action::Wait
    );
    assert!(matches!(c.pipeline(0).state, PoolState::Failed { .. }));
    c.step(0, PoolEvent::Tick, 2);
    assert_eq!(c.step(0, PoolEvent::Tick, 2), Action::StartSample);
    // Second malformed response: escalated, the cycle is skipped.
    assert_eq!(
        c.step(0, PoolEvent::SampleFailed { error: SampleError::MalformedResponseError }, 2),
        Action::SkipCycle { kind: ErrorClass::Transient }
    );
    assert_eq!(c.pipeline(0).state, PoolState::Idle);
}

#[test]
fn receipt_timeout_defers_to_the_next_cycle() {
    let mut c = Coordinator::new(two_pool_config());
    c.step(0, PoolEvent::Tick, 0);
    c.step(0, PoolEvent::SampleSucceeded { price: 100, timestamp: 0, block_number: 1 }, 0);
    c.step(0, PoolEvent::Tick, 600);
    c.step(0, PoolEvent::SampleSucceeded { price: 100, timestamp: 600, block_number: 2 }, 600);
    c.step(0, PoolEvent::OracleTimestamp { last_update: 0 }, 600);
    assert_eq!(c.step(0, PoolEvent::SignSucceeded, 600), Action::Submit);
    // The transaction is not confirmed in time.  It is not blindly
    // resubmitted: the pipeline falls back, and the next attempt re-reads
    // the oracle first (where a transaction that landed late would be
    // caught as a duplicate).
    assert_eq!(
        c.step(0, PoolEvent::SubmitFailed { error: SubmitError::ReceiptTimeoutError }, 660),
        Action::SkipCycle { kind: ErrorClass::Transient }
    );
    assert_eq!(c.pipeline(0).state, PoolState::Recorded);
}
