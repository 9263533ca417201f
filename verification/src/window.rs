//! Per-pool observation windows and time-weighted averaging.
//!
//! Each configured pool owns one [`ObservationWindow`]: a time-ordered
//! sequence of price observations bounded by a configured duration.  New
//! observations are appended at the tail (out-of-order timestamps are
//! rejected, preserving monotonicity), and entries strictly older than
//! `now - window_duration` are trimmed from the head.  The time-weighted
//! average weights each price by how long it was in effect; the most recent
//! price is taken to hold until `now`.

use vstd::prelude::*;
use crate::errors::AggregationError;

verus! {

/// One timestamped price sample of one pool.
#[derive(Clone, Copy, Debug, PartialEq, Eq, Structural)]
pub struct PriceObservation {
    /// Fixed-point price (see [`crate::sampler::PRICE_SCALE`]).
    pub price: u64,
    /// Block timestamp of the sample, in seconds.
    pub timestamp: u64,
    /// Block number of the sample.
    pub block_number: u64,
}

/// The time-weighted average computed over one pool's window.
#[derive(Clone, Copy, Debug, PartialEq, Eq, Structural)]
pub struct TwapResult {
    /// Index of the pool in the configured pool list.
    pub pool: usize,
    /// Fixed-point time-weighted average price.
    pub price: u64,
    /// Duration actually spanned by the observations used, extended to the
    /// computation time.
    pub coverage: u64,
    /// Time at which this average was computed.
    pub computed_at: u64,
}

/// What became of one observation handed to `record`.
#[derive(Clone, Copy, Debug, PartialEq, Eq, Structural)]
pub enum RecordOutcome {
    /// The observation was appended (after trimming stale entries).
    Recorded,
    /// The observation was older than the window's tail and was dropped as
    /// an anomaly; the window is unchanged.
    RejectedOutOfOrder,
}

/// Timestamps never decrease along the sequence.
pub open spec fn time_sorted(s: Seq<PriceObservation>) -> bool {
    forall|i: int, j: int|
        0 <= i <= j < s.len() ==> #[trigger] s[i].timestamp <= #[trigger] s[j].timestamp
}

/// Number of leading entries strictly older than `now - duration`.
pub open spec fn stale_prefix_len(s: Seq<PriceObservation>, now: int, duration: int) -> int
    decreases s.len(),
{
    if s.len() == 0 || s[0].timestamp + duration >= now {
        0
    } else {
        1 + stale_prefix_len(s.drop_first(), now, duration)
    }
}

/// Sum of `price * (next timestamp - own timestamp)` over the first `i`
/// consecutive pairs of `s`.
pub open spec fn pair_sum(s: Seq<PriceObservation>, i: int) -> int
    decreases i,
{
    if i <= 0 {
        0
    } else {
        pair_sum(s, i - 1) + s[i - 1].price * (s[i].timestamp - s[i - 1].timestamp)
    }
}

/// Weighted sum of all prices in `s`, the last price extended to `now`
/// (meaningful for non-empty `s`).
pub open spec fn twap_numerator(s: Seq<PriceObservation>, now: int) -> int {
    pair_sum(s, s.len() - 1) + s.last().price * (now - s.last().timestamp)
}

/// Total weight of the window at time `now`: the duration from the first
/// observation to `now`.
pub open spec fn total_weight(s: Seq<PriceObservation>, now: int) -> int {
    now - s[0].timestamp
}

/// The time-weighted average price of `s` at time `now`, rounded down.
pub open spec fn spec_twap(s: Seq<PriceObservation>, now: int) -> int {
    twap_numerator(s, now) / total_weight(s, now)
}

/// Duration spanned by the observations themselves: tail minus head.
pub open spec fn spec_span(s: Seq<PriceObservation>) -> int {
    s.last().timestamp - s[0].timestamp
}

/// Smallest price in `s` (0 for an empty sequence).
pub open spec fn min_price(s: Seq<PriceObservation>) -> int
    decreases s.len(),
{
    if s.len() == 0 {
        0
    } else if s.len() == 1 {
        s[0].price as int
    } else if s.last().price < min_price(s.drop_last()) {
        s.last().price as int
    } else {
        min_price(s.drop_last())
    }
}

/// Largest price in `s` (0 for an empty sequence).
pub open spec fn max_price(s: Seq<PriceObservation>) -> int
    decreases s.len(),
{
    if s.len() == 0 {
        0
    } else if s.len() == 1 {
        s[0].price as int
    } else if s.last().price > max_price(s.drop_last()) {
        s.last().price as int
    } else {
        max_price(s.drop_last())
    }
}

/// Every price of `s` lies between `min_price` and `max_price`, and both
/// fit the price type.
pub proof fn lemma_price_in_bounds(s: Seq<PriceObservation>, i: int)
    requires
        0 <= i < s.len(),
    ensures
        min_price(s) <= s[i].price <= max_price(s),
        0 <= min_price(s),
        max_price(s) <= u64::MAX,
    decreases s.len(),
{
    if s.len() > 1 {
        lemma_price_in_bounds(s.drop_last(), if i < s.len() - 1 {
            i
        } else {
            0
        });
    }
}

/// The running pair sum is bounded by the extreme prices times the elapsed
/// duration.
pub proof fn lemma_pair_sum_bounds(s: Seq<PriceObservation>, i: int)
    requires
        time_sorted(s),
        0 <= i < s.len(),
    ensures
        min_price(s) * (s[i].timestamp - s[0].timestamp) <= pair_sum(s, i),
        pair_sum(s, i) <= max_price(s) * (s[i].timestamp - s[0].timestamp),
    decreases i,
{
    if i == 0 {
        assert(min_price(s) * 0 == 0) by (nonlinear_arith);
        assert(max_price(s) * 0 == 0) by (nonlinear_arith);
    } else {
        lemma_pair_sum_bounds(s, i - 1);
        lemma_price_in_bounds(s, i - 1);
        let pmin = min_price(s);
        let pmax = max_price(s);
        let t0 = s[0].timestamp as int;
        let ta = s[i - 1].timestamp as int;
        let tb = s[i].timestamp as int;
        let p = s[i - 1].price as int;
        assert(ta <= tb && t0 <= ta);
        vstd::arithmetic::mul::lemma_mul_inequality(p, pmax, tb - ta);
        vstd::arithmetic::mul::lemma_mul_inequality(pmin, p, tb - ta);
        vstd::arithmetic::mul::lemma_mul_is_distributive_add(pmax, ta - t0, tb - ta);
        vstd::arithmetic::mul::lemma_mul_is_distributive_add(pmin, ta - t0, tb - ta);
    }
}

/// The whole weighted sum is bounded by the extreme prices times the total
/// weight.
pub proof fn lemma_numerator_bounds(s: Seq<PriceObservation>, now: int)
    requires
        time_sorted(s),
        s.len() >= 1,
        s.last().timestamp <= now,
    ensures
        min_price(s) * total_weight(s, now) <= twap_numerator(s, now),
        twap_numerator(s, now) <= max_price(s) * total_weight(s, now),
{
    let n = s.len() as int;
    lemma_pair_sum_bounds(s, n - 1);
    lemma_price_in_bounds(s, n - 1);
    let pmin = min_price(s);
    let pmax = max_price(s);
    let t0 = s[0].timestamp as int;
    let tl = s.last().timestamp as int;
    let p = s.last().price as int;
    vstd::arithmetic::mul::lemma_mul_inequality(p, pmax, now - tl);
    vstd::arithmetic::mul::lemma_mul_inequality(pmin, p, now - tl);
    vstd::arithmetic::mul::lemma_mul_is_distributive_add(pmax, tl - t0, now - tl);
    vstd::arithmetic::mul::lemma_mul_is_distributive_add(pmin, tl - t0, now - tl);
}

/// Weighted average boundedness: for every window of observations with
/// strictly increasing timestamps, the time-weighted average lies between
/// the smallest and the largest observed price.
pub proof fn lemma_twap_bounded(s: Seq<PriceObservation>, now: int)
    requires
        s.len() >= 2,
        forall|i: int, j: int|
            0 <= i < j < s.len() ==> #[trigger] s[i].timestamp < #[trigger] s[j].timestamp,
        s.last().timestamp <= now,
    ensures
        min_price(s) <= spec_twap(s, now) <= max_price(s),
{
    assert(time_sorted(s));
    lemma_numerator_bounds(s, now);
    let w = total_weight(s, now);
    assert(s[0].timestamp < s[s.len() - 1].timestamp);
    assert(w >= 1);
    let pmin = min_price(s);
    let pmax = max_price(s);
    let num = twap_numerator(s, now);
    vstd::arithmetic::div_mod::lemma_div_is_ordered(pmin * w, num, w);
    vstd::arithmetic::div_mod::lemma_div_is_ordered(num, pmax * w, w);
    lemma_price_in_bounds(s, 0);
    vstd::arithmetic::div_mod::lemma_div_by_multiple(pmin, w);
    vstd::arithmetic::div_mod::lemma_div_by_multiple(pmax, w);
}

/// In a time-ordered window, the stale prefix holds exactly the entries
/// strictly older than `now - duration`: trimming it removes nothing that
/// still contributes coverage.
pub proof fn lemma_trim_keeps_exactly_fresh(s: Seq<PriceObservation>, now: int, duration: int)
    requires
        time_sorted(s),
    ensures
        0 <= stale_prefix_len(s, now, duration) <= s.len(),
        forall|i: int|
            0 <= i < s.len() ==> (i < stale_prefix_len(s, now, duration) <==> #[trigger] s[i].timestamp
                + duration < now),
    decreases s.len(),
{
    if s.len() > 0 && s[0].timestamp + duration < now {
        assert(forall|i: int, j: int|
            0 <= i <= j < s.len() - 1 ==> #[trigger] s.drop_first()[i].timestamp
                <= #[trigger] s.drop_first()[j].timestamp);
        lemma_trim_keeps_exactly_fresh(s.drop_first(), now, duration);
        assert(forall|i: int| 1 <= i < s.len() ==> s.drop_first()[i - 1] == s[i]);
    }
}

/// Trimming spares every observation that is still within the window
/// duration: an entry at exactly `now - duration` or newer survives
/// eviction, so an observation that can still anchor the coverage span is
/// never removed.
pub proof fn lemma_trim_spares_fresh_entry(
    s: Seq<PriceObservation>,
    now: int,
    duration: int,
    i: int,
)
    requires
        time_sorted(s),
        0 <= i < s.len(),
        s[i].timestamp + duration >= now,
    ensures
        ({
            let k = stale_prefix_len(s, now, duration);
            &&& k <= i
            &&& s.subrange(k, s.len() as int)[i - k] == s[i]
        }),
{
    lemma_trim_keeps_exactly_fresh(s, now, duration);
}

/// A sliding window of price observations for one pool, ordered by
/// timestamp and bounded by a duration.
pub struct ObservationWindow {
    obs: Vec<PriceObservation>,
    duration: u64,
}

impl View for ObservationWindow {
    type V = Seq<PriceObservation>;

    closed spec fn view(&self) -> Seq<PriceObservation> {
        self.obs@
    }
}

impl ObservationWindow {
    /// Configured bound on the age of retained observations.
    pub closed spec fn spec_duration(&self) -> u64 {
        self.duration
    }

    /// Window invariant: observations are ordered by timestamp.
    pub open spec fn wf(&self) -> bool {
        time_sorted(self@)
    }

    /// An empty window with the given duration bound.
    pub fn new(duration: u64) -> (w: ObservationWindow)
        requires
            duration >= 1,
        ensures
            w.wf(),
            w@ == Seq::<PriceObservation>::empty(),
            w.spec_duration() == duration,
    {
        let w = ObservationWindow { obs: Vec::new(), duration };
        assert(w@ =~= Seq::<PriceObservation>::empty());
        w
    }

    /// Number of observations currently held.
    pub fn len(&self) -> (n: usize)
        ensures
            n == self@.len(),
    {
        self.obs.len()
    }

    /// The observations currently held, oldest first.
    pub fn observations(&self) -> (o: &Vec<PriceObservation>)
        ensures
            o@ == self@,
    {
        &self.obs
    }

    /// Drops every observation strictly older than `now - duration` from
    /// the head of the window; nothing else is removed.
    pub fn evict_stale(&mut self, now: u64)
        requires
            old(self).wf(),
        ensures
            final(self).wf(),
            final(self).spec_duration() == old(self).spec_duration(),
            final(self)@ == old(self)@.subrange(
                stale_prefix_len(old(self)@, now as int, old(self).spec_duration() as int),
                old(self)@.len() as int,
            ),
    {
        let ghost orig = self@;
        let ghost dur = self.duration as int;
        proof {
            lemma_trim_keeps_exactly_fresh(orig, now as int, dur);
            assert(self@ =~= orig.subrange(0, orig.len() as int));
        }
        let ghost k = stale_prefix_len(orig, now as int, dur);
        let total: usize = self.obs.len();
        let mut removed: usize = 0;
        // An observation is stale when `timestamp < now - duration`; the
        // comparison is written so that `now - duration` never underflows.
        while self.obs.len() > 0 && now > self.duration && self.obs[0].timestamp < now
            - self.duration
            invariant
                self.duration == old(self).duration,
                dur == self.duration as int,
                orig.len() == total,
                0 <= removed <= k <= orig.len(),
                k == stale_prefix_len(orig, now as int, dur),
                self@ == orig.subrange(removed as int, orig.len() as int),
                time_sorted(orig),
                forall|i: int|
                    0 <= i < orig.len() ==> (i < k <==> #[trigger] orig[i].timestamp + dur < now),
            decreases orig.len() - removed,
        {
            assert(self@[0] == orig[removed as int]);
            assert(removed < k);
            self.obs.remove(0);
            proof {
                assert(self@ =~= orig.subrange(removed + 1, orig.len() as int));
            }
            removed = removed + 1;
        }
        proof {
            if self@.len() == 0 {
                assert(k == removed);
            } else {
                assert(self@[0] == orig[removed as int]);
                assert(orig[removed as int].timestamp + dur >= now);
                assert(k <= removed);
            }
            assert(self@ == orig.subrange(k, orig.len() as int));
            assert forall|i: int, j: int| 0 <= i <= j < self@.len() implies self@[i].timestamp
                <= self@[j].timestamp by {
                assert(self@[i] == orig[k + i]);
                assert(self@[j] == orig[k + j]);
            }
        }
    }

    /// Appends one observation, first trimming entries that are stale
    /// relative to the observation's own timestamp.  An observation older
    /// than the current tail is rejected unchanged, preserving the
    /// monotonic order of the window.
    pub fn record(&mut self, o: PriceObservation) -> (rc: RecordOutcome)
        requires
            old(self).wf(),
        ensures
            final(self).wf(),
            final(self).spec_duration() == old(self).spec_duration(),
            (rc == RecordOutcome::RejectedOutOfOrder <==> old(self)@.len() > 0 && o.timestamp < old(
                self,
            )@.last().timestamp),
            rc == RecordOutcome::RejectedOutOfOrder ==> final(self)@ == old(self)@,
            rc == RecordOutcome::Recorded ==> final(self)@ == old(self)@.subrange(
                stale_prefix_len(old(self)@, o.timestamp as int, old(self).spec_duration() as int),
                old(self)@.len() as int,
            ).push(o),
    {
        let n = self.obs.len();
        if n > 0 && o.timestamp < self.obs[n - 1].timestamp {
            assert(self@[(n - 1) as int] == self@.last());
            return RecordOutcome::RejectedOutOfOrder;
        }
        let ghost orig = self@;
        let ghost dur = self.duration as int;
        self.evict_stale(o.timestamp);
        let ghost trimmed = self@;
        self.obs.push(o);
        proof {
            assert(self@ =~= trimmed.push(o));
            let spl = stale_prefix_len(orig, o.timestamp as int, dur);
            lemma_trim_keeps_exactly_fresh(orig, o.timestamp as int, dur);
            // The new tail is at least as new as every retained entry.
            assert forall|i: int| 0 <= i < trimmed.len() implies #[trigger] trimmed[i].timestamp
                <= o.timestamp by {
                assert(trimmed[i] == orig[spl + i]);
                assert(orig[spl + i].timestamp <= orig[orig.len() - 1].timestamp);
                assert(orig[orig.len() - 1] == orig.last());
            }
            assert forall|i: int, j: int| 0 <= i <= j < self@.len() implies #[trigger] self@[i].timestamp
                <= #[trigger] self@[j].timestamp by {
                if j < trimmed.len() {
                    assert(self@[i] == trimmed[i]);
                    assert(self@[j] == trimmed[j]);
                    assert(trimmed[i].timestamp <= trimmed[j].timestamp);
                } else {
                    assert(self@[j] == o);
                    if i < trimmed.len() {
                        assert(self@[i] == trimmed[i]);
                        assert(trimmed[i].timestamp <= o.timestamp);
                    }
                }
            }
        }
        RecordOutcome::Recorded
    }

    /// Computes the time-weighted average price of the window at time
    /// `now`, together with the coverage duration used.
    ///
    /// Fails with `InsufficientCoverageError` exactly when the window holds
    /// fewer than two observations or spans less than `min_coverage`
    /// (a span exactly equal to the minimum is accepted).  On success the
    /// price is the weighted average of the window, which always lies
    /// between the smallest and the largest observed price.
    pub fn twap(&self, now: u64, min_coverage: u64) -> (r: Result<(u64, u64), AggregationError>)
        requires
            self.wf(),
            min_coverage >= 1,
            self@.len() > 0 ==> self@.last().timestamp <= now,
        ensures
            (self@.len() < 2 || spec_span(self@) < min_coverage) <==> r == Err::<
                (u64, u64),
                AggregationError,
            >(AggregationError::InsufficientCoverageError),
            self@.len() >= 2 && spec_span(self@) >= min_coverage ==> r == Ok::<
                (u64, u64),
                AggregationError,
            >(
                (
                    spec_twap(self@, now as int) as u64,
                    total_weight(self@, now as int) as u64,
                ),
            ),
            r is Ok ==> min_price(self@) <= spec_twap(self@, now as int) <= max_price(self@),
    {
        let n = self.obs.len();
        if n < 2 {
            return Err(AggregationError::InsufficientCoverageError);
        }
        let first_ts = self.obs[0].timestamp;
        let last_ts = self.obs[n - 1].timestamp;
        assert(self@[(n - 1) as int] == self@.last());
        assert(first_ts <= last_ts);
        let span = last_ts - first_ts;
        if span < min_coverage {
            return Err(AggregationError::InsufficientCoverageError);
        }
        let w_total = now - first_ts;
        let ghost s = self@;
        let ghost pmin = min_price(s);
        let ghost pmax = max_price(s);
        let mut acc: u128 = 0;
        let mut i: usize = 1;
        proof {
            lemma_pair_sum_bounds(s, 0);
        }
        while i < n
            invariant
                self.wf(),
                s == self@,
                2 <= n == s.len(),
                1 <= i <= n,
                pmin == min_price(s),
                pmax == max_price(s),
                acc == pair_sum(s, i - 1),
            decreases n - i,
        {
            assert(s[(i - 1) as int].timestamp <= s[i as int].timestamp);
            let p = self.obs[i - 1].price;
            let dt = self.obs[i].timestamp - self.obs[i - 1].timestamp;
            proof {
                lemma_pair_sum_bounds(s, i as int);
                lemma_price_in_bounds(s, i - 1 as int);
                assert((u64::MAX as int) * (u64::MAX as int) < u128::MAX as int);
                vstd::arithmetic::mul::lemma_mul_inequality(
                    pmax,
                    u64::MAX as int,
                    s[i as int].timestamp - s[0].timestamp,
                );
                vstd::arithmetic::mul::lemma_mul_inequality(
                    s[i as int].timestamp - s[0].timestamp,
                    u64::MAX as int,
                    u64::MAX as int,
                );
                assert(pair_sum(s, i as int) <= (u64::MAX as int) * (u64::MAX as int));
                assert(pair_sum(s, i as int) == acc + p * dt);
                assert(p * dt >= 0) by (nonlinear_arith)
                    requires p >= 0 && dt >= 0;
            }
            acc = acc + (p as u128) * (dt as u128);
            i += 1;
        }
        let p_last = self.obs[n - 1].price;
        let dt_last = now - last_ts;
        proof {
            lemma_numerator_bounds(s, now as int);
            lemma_price_in_bounds(s, 0);
            assert((u64::MAX as int) * (u64::MAX as int) < u128::MAX as int);
            vstd::arithmetic::mul::lemma_mul_inequality(pmax, u64::MAX as int, now - s[0].timestamp);
            vstd::arithmetic::mul::lemma_mul_inequality(
                now - s[0].timestamp,
                u64::MAX as int,
                u64::MAX as int,
            );
            assert(twap_numerator(s, now as int) == acc + p_last * (now - last_ts));
            assert(p_last * (now - last_ts) >= 0) by (nonlinear_arith)
                requires p_last >= 0 && now - last_ts >= 0;
        }
        let acc_total = acc + (p_last as u128) * (dt_last as u128);
        assert(acc_total == twap_numerator(s, now as int));
        let q: u128 = acc_total / (w_total as u128);
        proof {
            let w = total_weight(s, now as int);
            assert(w >= 1);
            vstd::arithmetic::div_mod::lemma_div_is_ordered(pmin * w, acc_total as int, w);
            vstd::arithmetic::div_mod::lemma_div_is_ordered(acc_total as int, pmax * w, w);
            vstd::arithmetic::div_mod::lemma_div_by_multiple(pmin, w);
            vstd::arithmetic::div_mod::lemma_div_by_multiple(pmax, w);
            assert(pmin <= q <= pmax);
        }
        Ok((q as u64, w_total))
    }
}

/// What recording one observation does to a window's contents: reject an
/// out-of-order timestamp unchanged, else trim stale entries (relative to
/// the observation's own timestamp) and append.
pub open spec fn spec_record_window(
    w: Seq<PriceObservation>,
    duration: int,
    o: PriceObservation,
) -> Seq<PriceObservation> {
    if w.len() > 0 && o.timestamp < w.last().timestamp {
        w
    } else {
        w.subrange(stale_prefix_len(w, o.timestamp as int, duration), w.len() as int).push(o)
    }
}

/// The time a TWAP is evaluated at: the caller's clock, or the window's
/// newest (chain-side) timestamp if that lies ahead of the local clock.
pub open spec fn spec_effective_now(w: Seq<PriceObservation>, now: int) -> int {
    if w.len() > 0 && w.last().timestamp > now {
        w.last().timestamp as int
    } else {
        now
    }
}

/// The aggregation component: one observation window per configured pool,
/// all bounded by the same duration, and the minimum coverage a window
/// must span before its TWAP may be used.
pub struct TwapAggregator {
    windows: Vec<ObservationWindow>,
    window_duration: u64,
    min_coverage: u64,
}

impl TwapAggregator {
    /// The per-pool windows.
    pub closed spec fn spec_windows(&self) -> Seq<ObservationWindow> {
        self.windows@
    }

    /// The common age bound of every window.
    pub closed spec fn spec_duration(&self) -> u64 {
        self.window_duration
    }

    /// The minimum coverage duration gating every TWAP.
    pub closed spec fn spec_min_coverage(&self) -> u64 {
        self.min_coverage
    }

    /// Aggregator invariant: positive bounds, and every window well
    /// formed under the common duration.
    pub open spec fn wf(&self) -> bool {
        &&& self.spec_duration() >= 1
        &&& 1 <= self.spec_min_coverage() <= self.spec_duration()
        &&& forall|i: int|
            0 <= i < self.spec_windows().len() ==> (#[trigger] self.spec_windows()[i]).wf()
                && self.spec_windows()[i].spec_duration() == self.spec_duration()
    }

    /// An aggregator with one empty window per pool.
    pub fn new(pool_count: usize, window_duration: u64, min_coverage: u64) -> (a: TwapAggregator)
        requires
            window_duration >= 1,
            1 <= min_coverage <= window_duration,
        ensures
            a.wf(),
            a.spec_windows().len() == pool_count,
            a.spec_duration() == window_duration,
            a.spec_min_coverage() == min_coverage,
            forall|i: int|
                0 <= i < a.spec_windows().len() ==> (#[trigger] a.spec_windows()[i])@
                    == Seq::<PriceObservation>::empty(),
    {
        let mut windows: Vec<ObservationWindow> = Vec::new();
        let mut i: usize = 0;
        while i < pool_count
            invariant
                window_duration >= 1,
                i <= pool_count,
                windows@.len() == i,
                forall|j: int|
                    0 <= j < i ==> (#[trigger] windows@[j]).wf() && windows@[j].spec_duration()
                        == window_duration && windows@[j]@ == Seq::<PriceObservation>::empty(),
            decreases pool_count - i,
        {
            windows.push(ObservationWindow::new(window_duration));
            i += 1;
        }
        TwapAggregator { windows, window_duration, min_coverage }
    }

    /// Number of pools the aggregator tracks.
    pub fn pool_count(&self) -> (n: usize)
        ensures
            n == self.spec_windows().len(),
    {
        self.windows.len()
    }

    /// The observations of one pool, oldest first.
    pub fn observations(&self, pool: usize) -> (o: &Vec<PriceObservation>)
        requires
            pool < self.spec_windows().len(),
        ensures
            o@ == self.spec_windows()[pool as int]@,
    {
        self.windows[pool].observations()
    }

    /// Records one observation into one pool's window; no other pool's
    /// window changes.  The window's new contents are exactly
    /// [`spec_record_window`] of its old contents.
    pub fn record(&mut self, pool: usize, o: PriceObservation) -> (rc: RecordOutcome)
        requires
            old(self).wf(),
            pool < old(self).spec_windows().len(),
        ensures
            final(self).wf(),
            final(self).spec_duration() == old(self).spec_duration(),
            final(self).spec_min_coverage() == old(self).spec_min_coverage(),
            final(self).spec_windows().len() == old(self).spec_windows().len(),
            forall|q: int|
                0 <= q < old(self).spec_windows().len() && q != pool
                    ==> final(self).spec_windows()[q] == old(self).spec_windows()[q],
            ({
                let w = old(self).spec_windows()[pool as int]@;
                &&& (rc == RecordOutcome::RejectedOutOfOrder <==> w.len() > 0 && o.timestamp
                    < w.last().timestamp)
                &&& final(self).spec_windows()[pool as int]@ == spec_record_window(
                    w,
                    old(self).spec_duration() as int,
                    o,
                )
            }),
    {
        let win = &mut self.windows[pool];
        win.record(o)
    }

    /// Computes the TWAP of one pool's window at time `now` (or at the
    /// window's newest timestamp, if the chain clock ran ahead of the
    /// local one).  Fails with `InsufficientCoverageError` exactly when
    /// the window holds fewer than two observations or spans less than
    /// the minimum coverage; a span exactly equal to the minimum is
    /// accepted.
    pub fn compute(&self, pool: usize, now: u64) -> (r: Result<TwapResult, AggregationError>)
        requires
            self.wf(),
            pool < self.spec_windows().len(),
        ensures
            ({
                let w = self.spec_windows()[pool as int]@;
                let en = spec_effective_now(w, now as int);
                match r {
                    Ok(tr) => {
                        &&& w.len() >= 2 && spec_span(w) >= self.spec_min_coverage()
                        &&& tr == (TwapResult {
                            pool,
                            price: spec_twap(w, en) as u64,
                            coverage: total_weight(w, en) as u64,
                            computed_at: now,
                        })
                        &&& min_price(w) <= tr.price <= max_price(w)
                    },
                    Err(e) => {
                        &&& (w.len() < 2 || spec_span(w) < self.spec_min_coverage())
                        &&& e == AggregationError::InsufficientCoverageError
                    },
                }
            }),
    {
        let win = &self.windows[pool];
        let wlen = win.len();
        if wlen < 2 {
            return Err(AggregationError::InsufficientCoverageError);
        }
        let last_ts = win.observations()[wlen - 1].timestamp;
        let eff_now = if now >= last_ts {
            now
        } else {
            last_ts
        };
        assert(win@[(wlen - 1) as int] == win@.last());
        match win.twap(eff_now, self.min_coverage) {
            Ok((avg, cov)) => {
                proof {
                    lemma_price_in_bounds(win@, 0);
                }
                Ok(TwapResult { pool, price: avg, coverage: cov, computed_at: now })
            },
            Err(e) => Err(e),
        }
    }
}

} // verus!
