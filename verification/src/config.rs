//! The validated configuration the pipeline runs under.
//!
//! Configuration is loaded and parsed outside this crate; the core receives
//! the plain values and validates them here, once, before any pipeline
//! runs.  An invalid configuration is fatal at startup.

use vstd::prelude::*;
use crate::address::Address;
use crate::errors::ConfigError;

verus! {

/// All parameters of the pipeline.  Durations and intervals are in
/// seconds; prices are fixed-point (see [`crate::sampler::PRICE_SCALE`]).
#[derive(Clone, Debug)]
pub struct Config {
    /// Address of the oracle contract receiving updates.
    pub oracle: Address,
    /// Addresses of the sampled pools; a pool is identified everywhere
    /// else by its index in this list.
    pub pools: Vec<Address>,
    /// How often each pool is sampled.
    pub sampling_interval: u64,
    /// How often an oracle update is attempted; may be larger than the
    /// sampling interval so that history builds up between updates.
    pub update_interval: u64,
    /// Age bound of the observation window: entries strictly older than
    /// `now - window_duration` are evicted.
    pub window_duration: u64,
    /// Minimum duration a window must span before its TWAP may be used.
    pub min_coverage: u64,
    /// Maximum age of a computed TWAP at submission time.
    pub freshness_bound: u64,
    /// First retry delay of the exponential backoff.
    pub retry_base_delay: u64,
    /// Cap on the backoff delay.
    pub retry_max_delay: u64,
    /// Maximum number of attempts per operation per cycle.
    pub max_attempts: u32,
    /// Block confirmations to await after a submission.
    pub confirmations: u32,
}

impl Config {
    /// Configuration invariant, established by [`Config::new`].
    pub open spec fn wf(&self) -> bool {
        &&& self.oracle.wf()
        &&& self.pools@.len() >= 1
        &&& forall|i: int| 0 <= i < self.pools@.len() ==> (#[trigger] self.pools@[i]).wf()
        &&& self.sampling_interval >= 1
        &&& self.update_interval >= 1
        &&& self.window_duration >= 1
        &&& 1 <= self.min_coverage <= self.window_duration
        &&& self.freshness_bound >= 1
        &&& 1 <= self.retry_base_delay <= self.retry_max_delay
        &&& self.max_attempts >= 1
    }

    /// Validates a configuration.  Succeeds exactly when every parameter
    /// is acceptable, and then returns the configuration unchanged; the
    /// error names the first parameter group that is invalid.
    pub fn new(
        oracle: Address,
        pools: Vec<Address>,
        sampling_interval: u64,
        update_interval: u64,
        window_duration: u64,
        min_coverage: u64,
        freshness_bound: u64,
        retry_base_delay: u64,
        retry_max_delay: u64,
        max_attempts: u32,
        confirmations: u32,
    ) -> (r: Result<Config, ConfigError>)
        requires
            oracle.wf(),
            forall|i: int| 0 <= i < pools@.len() ==> (#[trigger] pools@[i]).wf(),
        ensures
            (match r {
                Ok(c) => {
                    &&& c.wf()
                    &&& c.oracle == oracle
                    &&& c.pools == pools
                    &&& c.sampling_interval == sampling_interval
                    &&& c.update_interval == update_interval
                    &&& c.window_duration == window_duration
                    &&& c.min_coverage == min_coverage
                    &&& c.freshness_bound == freshness_bound
                    &&& c.retry_base_delay == retry_base_delay
                    &&& c.retry_max_delay == retry_max_delay
                    &&& c.max_attempts == max_attempts
                    &&& c.confirmations == confirmations
                },
                Err(e) => {
                    &&& (e == ConfigError::EmptyPoolList <==> pools@.len() == 0)
                    &&& (e == ConfigError::InvalidInterval <==> pools@.len() >= 1 && (
                    sampling_interval == 0 || update_interval == 0 || window_duration == 0
                        || freshness_bound == 0))
                    &&& (e == ConfigError::InvalidCoverage <==> pools@.len() >= 1
                        && sampling_interval >= 1 && update_interval >= 1 && window_duration >= 1
                        && freshness_bound >= 1 && (min_coverage == 0 || min_coverage
                        > window_duration))
                    &&& (e == ConfigError::InvalidRetryPolicy <==> pools@.len() >= 1
                        && sampling_interval >= 1 && update_interval >= 1 && window_duration >= 1
                        && freshness_bound >= 1 && 1 <= min_coverage <= window_duration && (
                    retry_base_delay == 0 || retry_base_delay > retry_max_delay || max_attempts
                        == 0))
                },
            }),
            r is Err <==> (pools@.len() == 0 || sampling_interval == 0 || update_interval == 0
                || window_duration == 0 || freshness_bound == 0 || min_coverage == 0
                || min_coverage > window_duration || retry_base_delay == 0 || retry_base_delay
                > retry_max_delay || max_attempts == 0),
    {
        if pools.len() == 0 {
            return Err(ConfigError::EmptyPoolList);
        }
        if sampling_interval == 0 || update_interval == 0 || window_duration == 0
            || freshness_bound == 0 {
            return Err(ConfigError::InvalidInterval);
        }
        if min_coverage == 0 || min_coverage > window_duration {
            return Err(ConfigError::InvalidCoverage);
        }
        if retry_base_delay == 0 || retry_base_delay > retry_max_delay || max_attempts == 0 {
            return Err(ConfigError::InvalidRetryPolicy);
        }
        Ok(
            Config {
                oracle,
                pools,
                sampling_interval,
                update_interval,
                window_duration,
                min_coverage,
                freshness_bound,
                retry_base_delay,
                retry_max_delay,
                max_attempts,
                confirmations,
            },
        )
    }

    /// Number of configured pools.
    pub fn pool_count(&self) -> (n: usize)
        ensures
            n == self.pools@.len(),
    {
        self.pools.len()
    }
}

} // verus!
