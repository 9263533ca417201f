use twap_oracle::batch::{check_submittable, UpdateBatch};
use twap_oracle::errors::SubmitError;
use twap_oracle::window::TwapResult;

fn result_at(pool: usize, price: u64, computed_at: u64) -> TwapResult {
    TwapResult { pool, price, coverage: 600, computed_at }
}

#[test]
fn empty_batch_is_rejected() {
    assert_eq!(
        UpdateBatch::new(vec![]).unwrap_err(),
        SubmitError::EmptyBatchError
    );
}

#[test]
fn mixed_computation_times_are_rejected() {
    let entries = vec![result_at(0, 100, 50), result_at(1, 200, 51)];
    assert_eq!(
        UpdateBatch::new(entries).unwrap_err(),
        SubmitError::EncodingError
    );
}

#[test]
fn batch_keeps_entries_in_order() {
    let entries = vec![result_at(0, 100, 50), result_at(1, 200, 50)];
    let b = UpdateBatch::new(entries).unwrap();
    assert_eq!(b.computed_at(), 50);
    assert_eq!(b.entries().len(), 2);
    assert_eq!(b.entries()[0].pool, 0);
    assert_eq!(b.entries()[1].pool, 1);
}

#[test]
fn fresh_novel_batch_passes_the_check() {
    let b = UpdateBatch::new(vec![result_at(0, 100, 100)]).unwrap();
    assert_eq!(check_submittable(&b, 150, 40, 60), Ok(()));
}

#[test]
fn stale_batch_is_rejected() {
    let b = UpdateBatch::new(vec![result_at(0, 100, 100)]).unwrap();
    // 61 seconds old with a 60 second bound.
    assert_eq!(
        check_submittable(&b, 161, 40, 60).unwrap_err(),
        SubmitError::StaleResultError
    );
    // Exactly at the bound: still fresh.
    assert_eq!(check_submittable(&b, 160, 40, 60), Ok(()));
}

#[test]
fn duplicate_update_is_rejected() {
    let b = UpdateBatch::new(vec![result_at(0, 100, 100)]).unwrap();
    assert_eq!(
        check_submittable(&b, 110, 100, 60).unwrap_err(),
        SubmitError::DuplicateUpdateError
    );
    assert_eq!(
        check_submittable(&b, 110, 120, 60).unwrap_err(),
        SubmitError::DuplicateUpdateError
    );
}

#[test]
fn resubmitting_the_same_batch_is_rejected() {
    let b = UpdateBatch::new(vec![result_at(0, 100, 100)]).unwrap();
    // First submission passes the check; the oracle then records the
    // batch's computation time.
    assert_eq!(check_submittable(&b, 110, 40, 60), Ok(()));
    let onchain_after = b.computed_at();
    // The second submission of the same batch is rejected, whenever it is
    // attempted.
    assert_eq!(
        check_submittable(&b, 111, onchain_after, 60).unwrap_err(),
        SubmitError::DuplicateUpdateError
    );
    assert_eq!(
        check_submittable(&b, 10_000, onchain_after, 60).unwrap_err(),
        SubmitError::StaleResultError
    );
}
