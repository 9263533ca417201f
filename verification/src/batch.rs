//! Batching of computed TWAPs into one oracle update, and the check that
//! decides whether a batch may be submitted.
//!
//! A batch carries the results of one update cycle, all computed at the
//! same time.  Before submission the submission check covers freshness (no result may
//! be older than the configured bound) and idempotency (the oracle must not
//! already hold an update at least as new); a batch that fails that check is
//! rejected, never submitted.  Because the oracle's own last-update time is
//! re-read before every attempt, a transaction that timed out but landed
//! anyway is caught by the same check on the next attempt.

use vstd::prelude::*;
use crate::errors::SubmitError;
use crate::window::TwapResult;

verus! {

/// The TWAPs destined for one oracle update transaction.
#[derive(Debug)]
pub struct UpdateBatch {
    entries: Vec<TwapResult>,
    computed_at: u64,
}

impl View for UpdateBatch {
    type V = Seq<TwapResult>;

    closed spec fn view(&self) -> Seq<TwapResult> {
        self.entries@
    }
}

impl UpdateBatch {
    /// The common computation time of every entry.
    pub closed spec fn spec_computed_at(&self) -> u64 {
        self.computed_at
    }

    /// Batch invariant: at least one entry, and every entry was computed at
    /// the batch's single computation time.
    pub open spec fn wf(&self) -> bool {
        &&& self@.len() >= 1
        &&& forall|i: int|
            0 <= i < self@.len() ==> (#[trigger] self@[i]).computed_at == self.spec_computed_at()
    }

    /// Builds a batch from the results of one cycle.
    ///
    /// Rejects an empty list (`EmptyBatchError`) and a list whose entries
    /// disagree on their computation time (`EncodingError`: such a list
    /// cannot describe one update call).
    pub fn new(entries: Vec<TwapResult>) -> (r: Result<UpdateBatch, SubmitError>)
        ensures
            (match r {
                Ok(b) => {
                    &&& entries@.len() >= 1
                    &&& forall|i: int|
                        0 <= i < entries@.len() ==> (#[trigger] entries@[i]).computed_at
                            == entries@[0].computed_at
                    &&& b.wf()
                    &&& b@ == entries@
                    &&& b.spec_computed_at() == entries@[0].computed_at
                },
                Err(e) => {
                    &&& (e == SubmitError::EmptyBatchError <==> entries@.len() == 0)
                    &&& (e == SubmitError::EncodingError <==> entries@.len() >= 1 && exists|i: int|
                        0 <= i < entries@.len() && (#[trigger] entries@[i]).computed_at
                            != entries@[0].computed_at)
                    &&& (e == SubmitError::EmptyBatchError || e == SubmitError::EncodingError)
                },
            }),
    {
        let n = entries.len();
        if n == 0 {
            return Err(SubmitError::EmptyBatchError);
        }
        let computed_at = entries[0].computed_at;
        let mut i: usize = 1;
        while i < n
            invariant
                1 <= i <= n,
                n == entries@.len(),
                computed_at == entries@[0].computed_at,
                forall|j: int| 0 <= j < i ==> (#[trigger] entries@[j]).computed_at == computed_at,
            decreases n - i,
        {
            if entries[i].computed_at != computed_at {
                return Err(SubmitError::EncodingError);
            }
            i += 1;
        }
        Ok(UpdateBatch { entries, computed_at })
    }

    /// The entries of the batch, in pool order of the cycle.
    pub fn entries(&self) -> (e: &Vec<TwapResult>)
        ensures
            e@ == self@,
    {
        &self.entries
    }

    /// The common computation time of the batch.
    pub fn computed_at(&self) -> (t: u64)
        ensures
            t == self.spec_computed_at(),
    {
        self.computed_at
    }
}

/// The submission check: given a batch computed at `computed_at`, the
/// current time, the oracle's last on-chain update time and the freshness
/// bound, either clears the batch for submission or names the rejection.
pub open spec fn spec_submission_check(
    computed_at: int,
    now: int,
    onchain_last_update: int,
    freshness_bound: int,
) -> Result<(), SubmitError> {
    if now - computed_at > freshness_bound {
        Err(SubmitError::StaleResultError)
    } else if onchain_last_update >= computed_at {
        Err(SubmitError::DuplicateUpdateError)
    } else {
        Ok(())
    }
}

/// Decides whether `batch` may be submitted at time `now`.
///
/// Returns `StaleResultError` when the batch was computed more than
/// `freshness_bound` ago (stale results must be recomputed, not
/// submitted), `DuplicateUpdateError` when the oracle already holds an
/// update at least as new as the batch (the idempotency check), and `Ok`
/// otherwise.
pub fn check_submittable(
    batch: &UpdateBatch,
    now: u64,
    onchain_last_update: u64,
    freshness_bound: u64,
) -> (r: Result<(), SubmitError>)
    requires
        batch.wf(),
    ensures
        r == spec_submission_check(
            batch.spec_computed_at() as int,
            now as int,
            onchain_last_update as int,
            freshness_bound as int,
        ),
{
    let computed_at = batch.computed_at();
    if now > computed_at && now - computed_at > freshness_bound {
        Err(SubmitError::StaleResultError)
    } else if onchain_last_update >= computed_at {
        Err(SubmitError::DuplicateUpdateError)
    } else {
        Ok(())
    }
}

/// Submission idempotency: once a batch has passed the check and the oracle
/// has recorded its computation time, the same batch can never pass the
/// check again, at any later time — it is rejected as a duplicate (or as
/// stale), so the same logical update is never written twice.
pub proof fn lemma_submission_idempotent(
    computed_at: int,
    first_now: int,
    second_now: int,
    onchain_last_update: int,
    freshness_bound: int,
)
    requires
        spec_submission_check(computed_at, first_now, onchain_last_update, freshness_bound)
            == Ok::<(), SubmitError>(()),
    ensures
        spec_submission_check(computed_at, second_now, computed_at, freshness_bound) != Ok::<
            (),
            SubmitError,
        >(()),
        spec_submission_check(computed_at, second_now, computed_at, freshness_bound) == Err::<
            (),
            SubmitError,
        >(SubmitError::StaleResultError) || spec_submission_check(
            computed_at,
            second_now,
            computed_at,
            freshness_bound,
        ) == Err::<(), SubmitError>(SubmitError::DuplicateUpdateError),
{
}

} // verus!
