//! Error taxonomy for the pipeline.
//!
//! Every failure the core can observe is classified into one of four
//! handling classes: transient failures are retried with backoff, data
//! quality failures skip the affected pool for the current cycle, integrity
//! failures halt the pool's submission path until operator intervention,
//! and configuration failures are fatal at startup.

use vstd::prelude::*;

verus! {

/// How a failure must be handled by the coordinator.
#[derive(Clone, Copy, Debug, PartialEq, Eq, Structural)]
pub enum ErrorClass {
    /// Network or timeout failure: retry with backoff.
    Transient,
    /// Bad or insufficient data: skip this pool for the cycle, do not retry.
    DataQuality,
    /// Invalid configuration: fatal at startup, before any pipeline runs.
    Configuration,
    /// Signer or encoding failure: the pool's submission path halts until
    /// operator intervention or restart.
    Integrity,
}

/// Failure of one price sample against the chain client.
#[derive(Clone, Copy, Debug, PartialEq, Eq, Structural)]
pub enum SampleError {
    /// Transport failure or deadline exceeded: retryable.
    NetworkError,
    /// The pool reported a zero reserve: not retryable, skipped this cycle.
    EmptyPoolError,
    /// The response decoded to something unusable (including a reserve
    /// ratio whose fixed-point price does not fit): retryable once, then
    /// escalated.
    MalformedResponseError,
}

/// Failure of a TWAP computation over an observation window.
#[derive(Clone, Copy, Debug, PartialEq, Eq, Structural)]
pub enum AggregationError {
    /// The window spans less than the configured minimum coverage, or holds
    /// fewer than two observations.
    InsufficientCoverageError,
}

/// Failure of a batch submission toward the oracle contract.
#[derive(Clone, Copy, Debug, PartialEq, Eq, Structural)]
pub enum SubmitError {
    /// The oracle update call could not be encoded: a configuration bug.
    EncodingError,
    /// The signer capability failed: needs operator attention.
    SignerError,
    /// Network or gas failure while submitting: retryable with backoff.
    SubmissionError,
    /// The transaction was not confirmed within its deadline; it may still
    /// land, so the oracle state is re-checked before any resubmission.
    ReceiptTimeoutError,
    /// A result in the batch is older than the freshness bound.
    StaleResultError,
    /// The oracle already holds an update at least as new as this batch.
    DuplicateUpdateError,
    /// The batch holds no entries.
    EmptyBatchError,
}

/// Failure of configuration validation.
#[derive(Clone, Copy, Debug, PartialEq, Eq, Structural)]
pub enum ConfigError {
    /// A pool or oracle address does not parse as 20 hex-encoded bytes.
    InvalidPoolAddress,
    /// No pools were configured.
    EmptyPoolList,
    /// A scheduling interval or duration parameter is zero or inconsistent.
    InvalidInterval,
    /// The minimum coverage is zero or exceeds the window duration.
    InvalidCoverage,
    /// The retry or backoff parameters are zero or inconsistent.
    InvalidRetryPolicy,
}

impl SampleError {
    /// Handling class of a sample failure.
    pub open spec fn spec_class(self) -> ErrorClass {
        match self {
            SampleError::NetworkError => ErrorClass::Transient,
            SampleError::EmptyPoolError => ErrorClass::DataQuality,
            SampleError::MalformedResponseError => ErrorClass::Transient,
        }
    }

    pub fn class(&self) -> (c: ErrorClass)
        ensures
            c == self.spec_class(),
    {
        match self {
            SampleError::NetworkError => ErrorClass::Transient,
            SampleError::EmptyPoolError => ErrorClass::DataQuality,
            SampleError::MalformedResponseError => ErrorClass::Transient,
        }
    }
}

impl AggregationError {
    /// Handling class of an aggregation failure.
    pub open spec fn spec_class(self) -> ErrorClass {
        ErrorClass::DataQuality
    }

    pub fn class(&self) -> (c: ErrorClass)
        ensures
            c == self.spec_class(),
    {
        ErrorClass::DataQuality
    }
}

impl SubmitError {
    /// Handling class of a submission failure.
    pub open spec fn spec_class(self) -> ErrorClass {
        match self {
            SubmitError::EncodingError => ErrorClass::Integrity,
            SubmitError::SignerError => ErrorClass::Integrity,
            SubmitError::SubmissionError => ErrorClass::Transient,
            SubmitError::ReceiptTimeoutError => ErrorClass::Transient,
            SubmitError::StaleResultError => ErrorClass::DataQuality,
            SubmitError::DuplicateUpdateError => ErrorClass::DataQuality,
            SubmitError::EmptyBatchError => ErrorClass::DataQuality,
        }
    }

    pub fn class(&self) -> (c: ErrorClass)
        ensures
            c == self.spec_class(),
    {
        match self {
            SubmitError::EncodingError => ErrorClass::Integrity,
            SubmitError::SignerError => ErrorClass::Integrity,
            SubmitError::SubmissionError => ErrorClass::Transient,
            SubmitError::ReceiptTimeoutError => ErrorClass::Transient,
            SubmitError::StaleResultError => ErrorClass::DataQuality,
            SubmitError::DuplicateUpdateError => ErrorClass::DataQuality,
            SubmitError::EmptyBatchError => ErrorClass::DataQuality,
        }
    }
}

impl ConfigError {
    /// Handling class of a configuration failure: always fatal at startup.
    pub open spec fn spec_class(self) -> ErrorClass {
        ErrorClass::Configuration
    }

    pub fn class(&self) -> (c: ErrorClass)
        ensures
            c == self.spec_class(),
    {
        ErrorClass::Configuration
    }
}

} // verus!
