//! The per-pool pipeline state machine and its coordinator.
//!
//! Every configured pool runs an independent pipeline:
//! `Idle -> Sampling -> Recorded -> (repeat until an update is due) ->
//! ReadyToSubmit -> Signing -> Submitting -> Idle`, with a `Failed` state
//! (reached from a retryable sampling or submission failure) that returns
//! to `Idle` once its backoff expires, and a terminal `ShutDown` state.
//! The coordinator owns the observation windows and the pipeline states;
//! all network work (the sample read, the oracle read, signing, the
//! transaction) is performed by the caller, which drives [`Coordinator::step`]
//! with one event at a time and performs the action it returns.  Recording
//! and aggregation are pure and happen inside the step that handles a
//! successful sample.
//!
//! Failures are isolated per pool: a step for one pool never changes any
//! other pool's window or pipeline, so no pool's failure can block
//! another's progress.

use vstd::prelude::*;
use crate::batch::{check_submittable, spec_submission_check, UpdateBatch};
use crate::config::Config;
use crate::errors::{ErrorClass, SampleError, SubmitError};
use crate::window::{
    spec_effective_now, spec_record_window, spec_span, spec_twap, total_weight, PriceObservation,
    TwapAggregator, TwapResult,
};

verus! {

/// Control state of one pool's pipeline.
#[derive(Clone, Copy, Debug, PartialEq, Eq, Structural)]
pub enum PoolState {
    /// Waiting for the next sampling slot.
    Idle,
    /// A sample read is in flight.
    Sampling,
    /// A sample was recorded; no update is in progress.
    Recorded,
    /// A TWAP is computed; waiting for the oracle's last-update time to
    /// run the freshness and idempotency check.
    ReadyToSubmit { result: TwapResult },
    /// The check passed; the signer is producing the transaction.
    Signing { result: TwapResult },
    /// The signed transaction is in flight.
    Submitting { computed_at: u64 },
    /// A retryable failure occurred; the pipeline rests until `until`.
    Failed { kind: ErrorClass, until: u64 },
    /// The process is shutting down.  `submitted` records whether a
    /// submission that was in flight at shutdown completed on chain.
    ShutDown { submitted: bool },
}

/// One event fed back into a pool's pipeline by the caller.
#[derive(Clone, Copy, Debug, PartialEq, Eq, Structural)]
pub enum PoolEvent {
    /// The scheduler clock advanced to `now`.
    Tick,
    /// The sample read returned reserves that decoded to this observation.
    SampleSucceeded { price: u64, timestamp: u64, block_number: u64 },
    /// The sample read failed.
    SampleFailed { error: SampleError },
    /// The oracle's last on-chain update time was read.
    OracleTimestamp { last_update: u64 },
    /// The signer produced the signed transaction.
    SignSucceeded,
    /// The submitted transaction was confirmed.
    SubmitSucceeded,
    /// Signing, submission or confirmation failed.
    SubmitFailed { error: SubmitError },
}

/// What the caller must do after a step.
#[derive(Clone, Copy, Debug, PartialEq, Eq, Structural)]
pub enum Action {
    /// Nothing; wait for the next event.
    Wait,
    /// Issue the pool's read call against the chain client.
    StartSample,
    /// Read the oracle's last-update time for this pool.
    ReadOracleTimestamp,
    /// Hand this result to the signer as one oracle update.
    Sign { result: TwapResult },
    /// Submit the signed transaction and await confirmation.
    Submit,
    /// Report: this pool is skipped for the current cycle.
    SkipCycle { kind: ErrorClass },
    /// Report: this pool's submission path is halted until operator
    /// intervention; sampling continues.
    HaltSubmissions { kind: ErrorClass },
}

/// The retry and scheduling state of one pool's pipeline.
#[derive(Clone, Copy, Debug, PartialEq, Eq, Structural)]
pub struct PoolPipeline {
    /// Control state.
    pub state: PoolState,
    /// Attempts already spent on the current sampling operation in this
    /// cycle.
    pub attempts: u32,
    /// Attempts already spent on the submission path in this cycle; a
    /// successful re-sample on the way to a submission retry does not
    /// reset it.
    pub submit_attempts: u32,
    /// When the current sampling cycle started (meaningful once
    /// `sampled_once`).
    pub last_sample_at: u64,
    /// Whether a sampling cycle was ever started.
    pub sampled_once: bool,
    /// When the last update cycle completed or was abandoned (meaningful
    /// once `updated_once`).
    pub last_update_cycle: u64,
    /// Whether an update cycle ever completed or was abandoned.
    pub updated_once: bool,
    /// Whether an integrity failure has halted this pool's submission
    /// path; sampling and aggregation continue.
    pub halted: bool,
}

/// The state every pool's pipeline starts in.
pub open spec fn spec_initial_pipeline() -> PoolPipeline {
    PoolPipeline {
        state: PoolState::Idle,
        attempts: 0,
        submit_attempts: 0,
        last_sample_at: 0,
        sampled_once: false,
        last_update_cycle: 0,
        updated_once: false,
        halted: false,
    }
}

/// Saturating addition on the clock type.
pub open spec fn spec_sat_add(a: int, b: int) -> int {
    if a + b <= u64::MAX {
        a + b
    } else {
        u64::MAX as int
    }
}

/// Exponential backoff: the delay after `attempt` failed attempts, doubled
/// each time starting from `base` and capped at `cap`.
pub open spec fn spec_backoff(base: int, cap: int, attempt: int) -> int
    decreases attempt,
{
    if attempt <= 0 {
        if base <= cap {
            base
        } else {
            cap
        }
    } else {
        let prev = spec_backoff(base, cap, attempt - 1);
        if prev >= cap {
            cap
        } else if 2 * prev <= cap {
            2 * prev
        } else {
            cap
        }
    }
}

/// Whether a new sampling cycle is due: never sampled yet, a retry is
/// pending, or a full sampling interval has elapsed.
pub open spec fn spec_sample_due(p: PoolPipeline, now: int, interval: int) -> bool {
    ||| !p.sampled_once
    ||| p.attempts > 0
    ||| p.submit_attempts > 0
    ||| (p.last_sample_at <= now && now - p.last_sample_at >= interval)
}

/// Whether an oracle update is due: the submission path is not halted and
/// either no update cycle ever completed or a full update interval has
/// elapsed since the last one.
pub open spec fn spec_update_due(p: PoolPipeline, now: int, interval: int) -> bool {
    &&& !p.halted
    &&& (!p.updated_once || (p.last_update_cycle <= now && now - p.last_update_cycle >= interval))
}

/// Transition on a scheduler tick in `Idle` or `Recorded`.
pub open spec fn spec_on_tick(cfg: Config, p: PoolPipeline, w: Seq<PriceObservation>, now: u64) -> (
    PoolPipeline,
    Seq<PriceObservation>,
    Action,
) {
    if spec_sample_due(p, now as int, cfg.sampling_interval as int) {
        (
            PoolPipeline {
                state: PoolState::Sampling,
                last_sample_at: now,
                sampled_once: true,
                ..p
            },
            w,
            Action::StartSample,
        )
    } else {
        (p, w, Action::Wait)
    }
}

/// Transition on a successful sample: record the observation, and if an
/// update is due and the window has enough coverage, compute the TWAP and
/// ask for the oracle's last-update time.
pub open spec fn spec_on_sample_ok(
    cfg: Config,
    pool: usize,
    p: PoolPipeline,
    w: Seq<PriceObservation>,
    o: PriceObservation,
    now: u64,
) -> (PoolPipeline, Seq<PriceObservation>, Action) {
    let w2 = spec_record_window(w, cfg.window_duration as int, o);
    if spec_update_due(p, now as int, cfg.update_interval as int) && w2.len() >= 2 && spec_span(w2)
        >= cfg.min_coverage {
        let en = spec_effective_now(w2, now as int);
        let tr = TwapResult {
            pool,
            price: spec_twap(w2, en) as u64,
            coverage: total_weight(w2, en) as u64,
            computed_at: now,
        };
        (
            PoolPipeline { state: PoolState::ReadyToSubmit { result: tr }, attempts: 0, ..p },
            w2,
            Action::ReadOracleTimestamp,
        )
    } else {
        (PoolPipeline { state: PoolState::Recorded, attempts: 0, ..p }, w2, Action::Wait)
    }
}

/// Transition on a failed sample: transient failures retry with backoff up
/// to the attempt bound, an empty pool skips the cycle outright, and a
/// malformed response is retried once and then escalated.
pub open spec fn spec_on_sample_err(
    cfg: Config,
    p: PoolPipeline,
    w: Seq<PriceObservation>,
    error: SampleError,
    now: u64,
) -> (PoolPipeline, Seq<PriceObservation>, Action) {
    match error {
        SampleError::NetworkError => {
            if p.attempts < cfg.max_attempts - 1 {
                (
                    PoolPipeline {
                        state: PoolState::Failed {
                            kind: ErrorClass::Transient,
                            until: spec_sat_add(
                                now as int,
                                spec_backoff(
                                    cfg.retry_base_delay as int,
                                    cfg.retry_max_delay as int,
                                    p.attempts as int,
                                ),
                            ) as u64,
                        },
                        attempts: (p.attempts + 1) as u32,
                        ..p
                    },
                    w,
                    Action::Wait,
                )
            } else {
                (
                    PoolPipeline { state: PoolState::Idle, attempts: 0, ..p },
                    w,
                    Action::SkipCycle { kind: ErrorClass::Transient },
                )
            }
        },
        SampleError::EmptyPoolError => (
            PoolPipeline { state: PoolState::Idle, attempts: 0, ..p },
            w,
            Action::SkipCycle { kind: ErrorClass::DataQuality },
        ),
        SampleError::MalformedResponseError => {
            if p.attempts == 0 && cfg.max_attempts > 1 {
                (
                    PoolPipeline {
                        state: PoolState::Failed {
                            kind: ErrorClass::Transient,
                            until: spec_sat_add(
                                now as int,
                                spec_backoff(
                                    cfg.retry_base_delay as int,
                                    cfg.retry_max_delay as int,
                                    0,
                                ),
                            ) as u64,
                        },
                        attempts: 1,
                        ..p
                    },
                    w,
                    Action::Wait,
                )
            } else {
                (
                    PoolPipeline { state: PoolState::Idle, attempts: 0, ..p },
                    w,
                    Action::SkipCycle { kind: ErrorClass::Transient },
                )
            }
        },
    }
}

/// Transition on the oracle's last-update time: run the submission check.
/// A fresh, novel result goes to the signer; a stale one is dropped for
/// recomputation; a duplicate means the oracle is already current, so the
/// update cycle completes without a write.
pub open spec fn spec_on_oracle_ts(
    cfg: Config,
    p: PoolPipeline,
    w: Seq<PriceObservation>,
    result: TwapResult,
    last_update: u64,
    now: u64,
) -> (PoolPipeline, Seq<PriceObservation>, Action) {
    match spec_submission_check(
        result.computed_at as int,
        now as int,
        last_update as int,
        cfg.freshness_bound as int,
    ) {
        Ok(_) => (
            PoolPipeline { state: PoolState::Signing { result }, ..p },
            w,
            Action::Sign { result },
        ),
        Err(SubmitError::StaleResultError) => (
            PoolPipeline { state: PoolState::Recorded, attempts: 0, ..p },
            w,
            Action::SkipCycle { kind: ErrorClass::DataQuality },
        ),
        Err(_) => (
            PoolPipeline {
                state: PoolState::Idle,
                attempts: 0,
                submit_attempts: 0,
                last_update_cycle: now,
                updated_once: true,
                ..p
            },
            w,
            Action::SkipCycle { kind: ErrorClass::DataQuality },
        ),
    }
}

/// Transition on a submission-path failure: a receipt timeout falls back
/// to the next cycle (whose check re-reads the oracle before any
/// resubmission), an integrity failure halts the pool's submission path,
/// and other transient failures retry with backoff up to the attempt
/// bound.
pub open spec fn spec_on_submit_err(
    cfg: Config,
    p: PoolPipeline,
    w: Seq<PriceObservation>,
    error: SubmitError,
    now: u64,
) -> (PoolPipeline, Seq<PriceObservation>, Action) {
    match error {
        SubmitError::ReceiptTimeoutError => (
            PoolPipeline { state: PoolState::Recorded, attempts: 0, submit_attempts: 0, ..p },
            w,
            Action::SkipCycle { kind: ErrorClass::Transient },
        ),
        _ => {
            match error.spec_class() {
                ErrorClass::Integrity => (
                    PoolPipeline {
                        state: PoolState::Recorded,
                        attempts: 0,
                        submit_attempts: 0,
                        halted: true,
                        ..p
                    },
                    w,
                    Action::HaltSubmissions { kind: ErrorClass::Integrity },
                ),
                ErrorClass::Transient => {
                    if p.submit_attempts < cfg.max_attempts - 1 {
                        (
                            PoolPipeline {
                                state: PoolState::Failed {
                                    kind: ErrorClass::Transient,
                                    until: spec_sat_add(
                                        now as int,
                                        spec_backoff(
                                            cfg.retry_base_delay as int,
                                            cfg.retry_max_delay as int,
                                            p.submit_attempts as int,
                                        ),
                                    ) as u64,
                                },
                                submit_attempts: (p.submit_attempts + 1) as u32,
                                ..p
                            },
                            w,
                            Action::Wait,
                        )
                    } else {
                        (
                            PoolPipeline {
                                state: PoolState::Idle,
                                attempts: 0,
                                submit_attempts: 0,
                                last_update_cycle: now,
                                updated_once: true,
                                ..p
                            },
                            w,
                            Action::SkipCycle { kind: ErrorClass::Transient },
                        )
                    }
                },
                _ => (
                    PoolPipeline { state: PoolState::Recorded, attempts: 0, submit_attempts: 0, ..p },
                    w,
                    Action::SkipCycle { kind: ErrorClass::DataQuality },
                ),
            }
        },
    }
}

/// The full transition relation of one pool's pipeline: given the
/// configuration, the pool's index, its pipeline and window, the shutdown
/// flag, one event and the clock, yields the new pipeline, the new window
/// contents and the action the caller must perform.
pub open spec fn spec_step(
    cfg: Config,
    pool: usize,
    p: PoolPipeline,
    w: Seq<PriceObservation>,
    shutdown: bool,
    ev: PoolEvent,
    now: u64,
) -> (PoolPipeline, Seq<PriceObservation>, Action) {
    let is_shut = match p.state {
        PoolState::ShutDown { .. } => true,
        _ => false,
    };
    if is_shut {
        (p, w, Action::Wait)
    } else if shutdown {
        match (p.state, ev) {
            (PoolState::Submitting { .. }, PoolEvent::SubmitSucceeded) => (
                PoolPipeline { state: PoolState::ShutDown { submitted: true }, attempts: 0, ..p },
                w,
                Action::Wait,
            ),
            (PoolState::Submitting { .. }, PoolEvent::SubmitFailed { .. }) => (
                PoolPipeline { state: PoolState::ShutDown { submitted: false }, attempts: 0, ..p },
                w,
                Action::Wait,
            ),
            (PoolState::Submitting { .. }, _) => (p, w, Action::Wait),
            _ => (
                PoolPipeline { state: PoolState::ShutDown { submitted: false }, attempts: 0, ..p },
                w,
                Action::Wait,
            ),
        }
    } else {
        match (p.state, ev) {
            (PoolState::Idle, PoolEvent::Tick) => spec_on_tick(cfg, p, w, now),
            (PoolState::Recorded, PoolEvent::Tick) => spec_on_tick(cfg, p, w, now),
            (PoolState::Sampling, PoolEvent::SampleSucceeded { price, timestamp, block_number }) => spec_on_sample_ok(
                cfg,
                pool,
                p,
                w,
                PriceObservation { price, timestamp, block_number },
                now,
            ),
            (PoolState::Sampling, PoolEvent::SampleFailed { error }) => spec_on_sample_err(
                cfg,
                p,
                w,
                error,
                now,
            ),
            (PoolState::Failed { kind, until }, PoolEvent::Tick) => {
                if now >= until {
                    (PoolPipeline { state: PoolState::Idle, ..p }, w, Action::Wait)
                } else {
                    (p, w, Action::Wait)
                }
            },
            (PoolState::ReadyToSubmit { result }, PoolEvent::OracleTimestamp { last_update }) => spec_on_oracle_ts(
                cfg,
                p,
                w,
                result,
                last_update,
                now,
            ),
            (PoolState::Signing { result }, PoolEvent::SignSucceeded) => (
                PoolPipeline {
                    state: PoolState::Submitting { computed_at: result.computed_at },
                    ..p
                },
                w,
                Action::Submit,
            ),
            (PoolState::ReadyToSubmit { .. }, PoolEvent::SubmitFailed { error }) => spec_on_submit_err(
                cfg,
                p,
                w,
                error,
                now,
            ),
            (PoolState::Signing { .. }, PoolEvent::SubmitFailed { error }) => spec_on_submit_err(
                cfg,
                p,
                w,
                error,
                now,
            ),
            (PoolState::Submitting { .. }, PoolEvent::SubmitFailed { error }) => spec_on_submit_err(
                cfg,
                p,
                w,
                error,
                now,
            ),
            (PoolState::Submitting { .. }, PoolEvent::SubmitSucceeded) => (
                PoolPipeline {
                    state: PoolState::Idle,
                    attempts: 0,
                    submit_attempts: 0,
                    last_update_cycle: now,
                    updated_once: true,
                    ..p
                },
                w,
                Action::Wait,
            ),
            _ => (p, w, Action::Wait),
        }
    }
}

/// Shutdown safety: once shutdown is requested, a step never starts a
/// submission (nor any other work), a signature completing after shutdown
/// is abandoned with `ShutDown { submitted: false }` recorded, and a
/// submission already in flight is driven to its outcome, which is
/// recorded in `ShutDown { submitted }` — the pipeline never ends in a
/// signed-but-indeterminate state.
pub proof fn lemma_shutdown_safe(
    cfg: Config,
    pool: usize,
    p: PoolPipeline,
    w: Seq<PriceObservation>,
    ev: PoolEvent,
    now: u64,
)
    ensures
        ({
            let (p2, w2, a) = spec_step(cfg, pool, p, w, true, ev, now);
            &&& a == Action::Wait
            &&& w2 == w
            &&& ((p.state matches PoolState::Signing { .. }) && ev == PoolEvent::SignSucceeded
                ==> p2.state == (PoolState::ShutDown { submitted: false }))
            &&& ((p.state matches PoolState::Submitting { .. }) && ev
                == PoolEvent::SubmitSucceeded ==> p2.state == (PoolState::ShutDown {
                submitted: true,
            }))
            &&& ((p.state matches PoolState::Submitting { .. }) && (ev matches
                PoolEvent::SubmitFailed { .. }) ==> p2.state == (PoolState::ShutDown {
                submitted: false,
            }))
        }),
{
}

/// Saturating addition on the clock type.
pub fn saturating_add_u64(a: u64, b: u64) -> (r: u64)
    ensures
        r as int == spec_sat_add(a as int, b as int),
{
    if a <= u64::MAX - b {
        a + b
    } else {
        u64::MAX
    }
}

/// The backoff delay before retry number `attempt + 1`: `base`, doubled
/// `attempt` times, capped at `cap`.
pub fn backoff_delay(base: u64, cap: u64, attempt: u32) -> (d: u64)
    ensures
        d as int == spec_backoff(base as int, cap as int, attempt as int),
        d <= cap,
{
    let mut d: u64 = if base <= cap {
        base
    } else {
        cap
    };
    let mut i: u32 = 0;
    while i < attempt
        invariant
            i <= attempt,
            d <= cap,
            d as int == spec_backoff(base as int, cap as int, i as int),
        decreases attempt - i,
    {
        if d >= cap {
            d = cap;
        } else if d <= cap / 2 {
            d = d * 2;
        } else {
            d = cap;
        }
        i += 1;
    }
    d
}

/// The coordinator: the configuration, one observation window and one
/// pipeline per configured pool, and the process-wide shutdown flag.
pub struct Coordinator {
    cfg: Config,
    agg: TwapAggregator,
    pipes: Vec<PoolPipeline>,
    shutdown: bool,
}

impl Coordinator {
    /// The configuration the coordinator runs under.
    pub closed spec fn spec_cfg(&self) -> Config {
        self.cfg
    }

    /// The per-pool window contents, by pool index.
    pub closed spec fn spec_windows(&self) -> Seq<Seq<PriceObservation>> {
        Seq::new(self.agg.spec_windows().len(), |i: int| self.agg.spec_windows()[i]@)
    }

    /// The per-pool pipelines.
    pub closed spec fn spec_pipes(&self) -> Seq<PoolPipeline> {
        self.pipes@
    }

    /// Whether shutdown has been requested.
    pub closed spec fn spec_shutdown(&self) -> bool {
        self.shutdown
    }

    /// The aggregation component.
    pub closed spec fn spec_agg(&self) -> TwapAggregator {
        self.agg
    }

    /// Coordinator invariant: one well-formed window and one pipeline per
    /// configured pool, the aggregator bounded by the configured durations,
    /// every retry count within the configured bound.
    pub open spec fn wf(&self) -> bool {
        &&& self.spec_cfg().wf()
        &&& self.spec_agg().wf()
        &&& self.spec_agg().spec_windows().len() == self.spec_cfg().pools@.len()
        &&& self.spec_agg().spec_duration() == self.spec_cfg().window_duration
        &&& self.spec_agg().spec_min_coverage() == self.spec_cfg().min_coverage
        &&& self.spec_pipes().len() == self.spec_cfg().pools@.len()
        &&& forall|i: int|
            0 <= i < self.spec_pipes().len() ==> (#[trigger] self.spec_pipes()[i]).attempts
                <= self.spec_cfg().max_attempts && self.spec_pipes()[i].submit_attempts
                <= self.spec_cfg().max_attempts
    }

    /// A coordinator over a validated configuration: empty windows, every
    /// pipeline in its initial state, shutdown not requested.
    pub fn new(cfg: Config) -> (c: Coordinator)
        requires
            cfg.wf(),
        ensures
            c.wf(),
            c.spec_cfg() == cfg,
            !c.spec_shutdown(),
            c.spec_windows().len() == cfg.pools@.len(),
            forall|i: int|
                0 <= i < c.spec_windows().len() ==> #[trigger] c.spec_windows()[i]
                    == Seq::<PriceObservation>::empty(),
            forall|i: int|
                0 <= i < c.spec_pipes().len() ==> #[trigger] c.spec_pipes()[i]
                    == spec_initial_pipeline(),
    {
        let n = cfg.pool_count();
        let agg = TwapAggregator::new(n, cfg.window_duration, cfg.min_coverage);
        let mut pipes: Vec<PoolPipeline> = Vec::new();
        let mut i: usize = 0;
        while i < n
            invariant
                i <= n,
                pipes@.len() == i,
                forall|j: int| 0 <= j < i ==> #[trigger] pipes@[j] == spec_initial_pipeline(),
            decreases n - i,
        {
            pipes.push(
                PoolPipeline {
                    state: PoolState::Idle,
                    attempts: 0,
                    submit_attempts: 0,
                    last_sample_at: 0,
                    sampled_once: false,
                    last_update_cycle: 0,
                    updated_once: false,
                    halted: false,
                },
            );
            i += 1;
        }
        Coordinator { cfg, agg, pipes, shutdown: false }
    }

    /// Requests process-wide shutdown; nothing else changes.  Every later
    /// step settles its pool without starting new work.
    pub fn request_shutdown(&mut self)
        ensures
            final(self).spec_cfg() == old(self).spec_cfg(),
            final(self).spec_agg() == old(self).spec_agg(),
            final(self).spec_pipes() == old(self).spec_pipes(),
            final(self).spec_shutdown(),
            old(self).wf() ==> final(self).wf(),
    {
        self.shutdown = true;
    }

    /// The number of configured pools.
    pub fn pool_count(&self) -> (n: usize)
        ensures
            n == self.spec_cfg().pools@.len(),
    {
        self.cfg.pools.len()
    }

    /// The pipeline of one pool, for inspection.
    pub fn pipeline(&self, pool: usize) -> (p: PoolPipeline)
        requires
            pool < self.spec_pipes().len(),
        ensures
            p == self.spec_pipes()[pool as int],
    {
        self.pipes[pool]
    }

    /// Drives one pool's pipeline by one event at time `now` and returns
    /// the action the caller must perform.  The transition is exactly
    /// [`spec_step`]; every other pool's window and pipeline is untouched.
    #[verifier::rlimit(100)]
    pub fn step(&mut self, pool: usize, event: PoolEvent, now: u64) -> (a: Action)
        requires
            old(self).wf(),
            pool < old(self).spec_pipes().len(),
        ensures
            final(self).wf(),
            final(self).spec_cfg() == old(self).spec_cfg(),
            final(self).spec_shutdown() == old(self).spec_shutdown(),
            final(self).spec_windows().len() == old(self).spec_windows().len(),
            final(self).spec_pipes().len() == old(self).spec_pipes().len(),
            forall|q: int|
                0 <= q < old(self).spec_pipes().len() && q != pool ==> final(self).spec_pipes()[q]
                    == old(self).spec_pipes()[q],
            forall|q: int|
                0 <= q < old(self).spec_windows().len() && q != pool
                    ==> final(self).spec_windows()[q] == old(self).spec_windows()[q],
            ({
                let (p2, w2, act) = spec_step(
                    old(self).spec_cfg(),
                    pool,
                    old(self).spec_pipes()[pool as int],
                    old(self).spec_windows()[pool as int],
                    old(self).spec_shutdown(),
                    event,
                    now,
                );
                &&& final(self).spec_pipes()[pool as int] == p2
                &&& final(self).spec_windows()[pool as int] == w2
                &&& a == act
            }),
            old(self).spec_shutdown() ==> a == Action::Wait,
    {
        let p = self.pipes[pool];
        let cfg_sampling_interval = self.cfg.sampling_interval;
        let cfg_update_interval = self.cfg.update_interval;
        let cfg_min_coverage = self.cfg.min_coverage;
        let cfg_freshness_bound = self.cfg.freshness_bound;
        let cfg_retry_base = self.cfg.retry_base_delay;
        let cfg_retry_cap = self.cfg.retry_max_delay;
        let cfg_max_attempts = self.cfg.max_attempts;
        let is_shut = match p.state {
            PoolState::ShutDown { .. } => true,
            _ => false,
        };
        if is_shut {
            return Action::Wait;
        }
        if self.shutdown {
            match (p.state, event) {
                (PoolState::Submitting { .. }, PoolEvent::SubmitSucceeded) => {
                    self.pipes[pool] = PoolPipeline {
                        state: PoolState::ShutDown { submitted: true },
                        attempts: 0,
                        ..p
                    };
                    return Action::Wait;
                },
                (PoolState::Submitting { .. }, PoolEvent::SubmitFailed { .. }) => {
                    self.pipes[pool] = PoolPipeline {
                        state: PoolState::ShutDown { submitted: false },
                        attempts: 0,
                        ..p
                    };
                    return Action::Wait;
                },
                (PoolState::Submitting { .. }, _) => {
                    return Action::Wait;
                },
                _ => {
                    self.pipes[pool] = PoolPipeline {
                        state: PoolState::ShutDown { submitted: false },
                        attempts: 0,
                        ..p
                    };
                    return Action::Wait;
                },
            }
        }
        match (p.state, event) {
            (PoolState::Idle, PoolEvent::Tick) | (PoolState::Recorded, PoolEvent::Tick) => {
                let due = !p.sampled_once || p.attempts > 0 || p.submit_attempts > 0 || (now
                    >= p.last_sample_at && now - p.last_sample_at >= cfg_sampling_interval);
                if due {
                    self.pipes[pool] = PoolPipeline {
                        state: PoolState::Sampling,
                        last_sample_at: now,
                        sampled_once: true,
                        ..p
                    };
                    Action::StartSample
                } else {
                    Action::Wait
                }
            },
            (PoolState::Sampling, PoolEvent::SampleSucceeded { price, timestamp, block_number }) => {
                let o = PriceObservation { price, timestamp, block_number };
                let due = !p.halted && (!p.updated_once || (now >= p.last_update_cycle && now
                    - p.last_update_cycle >= cfg_update_interval));
                let _rc = self.agg.record(pool, o);
                let mut twap_res: Option<TwapResult> = Option::None;
                if due {
                    match self.agg.compute(pool, now) {
                        Ok(tr) => {
                            twap_res = Option::Some(tr);
                        },
                        Err(_) => {},
                    }
                }
                match twap_res {
                    Option::Some(tr) => {
                        self.pipes[pool] = PoolPipeline {
                            state: PoolState::ReadyToSubmit { result: tr },
                            attempts: 0,
                            ..p
                        };
                        Action::ReadOracleTimestamp
                    },
                    Option::None => {
                        self.pipes[pool] = PoolPipeline {
                            state: PoolState::Recorded,
                            attempts: 0,
                            ..p
                        };
                        Action::Wait
                    },
                }
            },
            (PoolState::Sampling, PoolEvent::SampleFailed { error }) => {
                match error {
                    SampleError::NetworkError => {
                        if p.attempts < cfg_max_attempts - 1 {
                            let delay = backoff_delay(cfg_retry_base, cfg_retry_cap, p.attempts);
                            self.pipes[pool] = PoolPipeline {
                                state: PoolState::Failed {
                                    kind: ErrorClass::Transient,
                                    until: saturating_add_u64(now, delay),
                                },
                                attempts: p.attempts + 1,
                                ..p
                            };
                            Action::Wait
                        } else {
                            self.pipes[pool] = PoolPipeline {
                                state: PoolState::Idle,
                                attempts: 0,
                                ..p
                            };
                            Action::SkipCycle { kind: ErrorClass::Transient }
                        }
                    },
                    SampleError::EmptyPoolError => {
                        self.pipes[pool] = PoolPipeline {
                            state: PoolState::Idle,
                            attempts: 0,
                            ..p
                        };
                        Action::SkipCycle { kind: ErrorClass::DataQuality }
                    },
                    SampleError::MalformedResponseError => {
                        if p.attempts == 0 && cfg_max_attempts > 1 {
                            let delay = backoff_delay(cfg_retry_base, cfg_retry_cap, 0);
                            self.pipes[pool] = PoolPipeline {
                                state: PoolState::Failed {
                                    kind: ErrorClass::Transient,
                                    until: saturating_add_u64(now, delay),
                                },
                                attempts: 1,
                                ..p
                            };
                            Action::Wait
                        } else {
                            self.pipes[pool] = PoolPipeline {
                                state: PoolState::Idle,
                                attempts: 0,
                                ..p
                            };
                            Action::SkipCycle { kind: ErrorClass::Transient }
                        }
                    },
                }
            },
            (PoolState::Failed { kind: _, until }, PoolEvent::Tick) => {
                if now >= until {
                    self.pipes[pool] = PoolPipeline { state: PoolState::Idle, ..p };
                }
                Action::Wait
            },
            (PoolState::ReadyToSubmit { result }, PoolEvent::OracleTimestamp { last_update }) => {
                let mut entries: Vec<TwapResult> = Vec::new();
                entries.push(result);
                match UpdateBatch::new(entries) {
                    Ok(batch) => {
                        match check_submittable(&batch, now, last_update, cfg_freshness_bound) {
                            Ok(_) => {
                                self.pipes[pool] = PoolPipeline {
                                    state: PoolState::Signing { result },
                                    ..p
                                };
                                Action::Sign { result }
                            },
                            Err(SubmitError::StaleResultError) => {
                                self.pipes[pool] = PoolPipeline {
                                    state: PoolState::Recorded,
                                    attempts: 0,
                                    ..p
                                };
                                Action::SkipCycle { kind: ErrorClass::DataQuality }
                            },
                            Err(_) => {
                                self.pipes[pool] = PoolPipeline {
                                    state: PoolState::Idle,
                                    attempts: 0,
                                    submit_attempts: 0,
                                    last_update_cycle: now,
                                    updated_once: true,
                                    ..p
                                };
                                Action::SkipCycle { kind: ErrorClass::DataQuality }
                            },
                        }
                    },
                    // A single-entry batch is never empty or mixed, so this
                    // arm is unreachable.
                    Err(_) => Action::Wait,
                }
            },
            (PoolState::Signing { result }, PoolEvent::SignSucceeded) => {
                self.pipes[pool] = PoolPipeline {
                    state: PoolState::Submitting { computed_at: result.computed_at },
                    ..p
                };
                Action::Submit
            },
            (PoolState::ReadyToSubmit { .. }, PoolEvent::SubmitFailed { error })
            | (PoolState::Signing { .. }, PoolEvent::SubmitFailed { error })
            | (PoolState::Submitting { .. }, PoolEvent::SubmitFailed { error }) => {
                match error {
                    SubmitError::ReceiptTimeoutError => {
                        self.pipes[pool] = PoolPipeline {
                            state: PoolState::Recorded,
                            attempts: 0,
                            submit_attempts: 0,
                            ..p
                        };
                        Action::SkipCycle { kind: ErrorClass::Transient }
                    },
                    _ => {
                        let class = error.class();
                        match class {
                            ErrorClass::Integrity => {
                                self.pipes[pool] = PoolPipeline {
                                    state: PoolState::Recorded,
                                    attempts: 0,
                                    submit_attempts: 0,
                                    halted: true,
                                    ..p
                                };
                                Action::HaltSubmissions { kind: ErrorClass::Integrity }
                            },
                            ErrorClass::Transient => {
                                if p.submit_attempts < cfg_max_attempts - 1 {
                                    let delay = backoff_delay(
                                        cfg_retry_base,
                                        cfg_retry_cap,
                                        p.submit_attempts,
                                    );
                                    self.pipes[pool] = PoolPipeline {
                                        state: PoolState::Failed {
                                            kind: ErrorClass::Transient,
                                            until: saturating_add_u64(now, delay),
                                        },
                                        submit_attempts: p.submit_attempts + 1,
                                        ..p
                                    };
                                    Action::Wait
                                } else {
                                    self.pipes[pool] = PoolPipeline {
                                        state: PoolState::Idle,
                                        attempts: 0,
                                        submit_attempts: 0,
                                        last_update_cycle: now,
                                        updated_once: true,
                                        ..p
                                    };
                                    Action::SkipCycle { kind: ErrorClass::Transient }
                                }
                            },
                            _ => {
                                self.pipes[pool] = PoolPipeline {
                                    state: PoolState::Recorded,
                                    attempts: 0,
                                    submit_attempts: 0,
                                    ..p
                                };
                                Action::SkipCycle { kind: ErrorClass::DataQuality }
                            },
                        }
                    },
                }
            },
            (PoolState::Submitting { .. }, PoolEvent::SubmitSucceeded) => {
                self.pipes[pool] = PoolPipeline {
                    state: PoolState::Idle,
                    attempts: 0,
                    submit_attempts: 0,
                    last_update_cycle: now,
                    updated_once: true,
                    ..p
                };
                Action::Wait
            },
            _ => Action::Wait,
        }
    }
}

} // verus!
