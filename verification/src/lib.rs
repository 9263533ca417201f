//! A verified core for a TWAP (time-weighted average price) oracle updater.
//!
//! The crate models the pure decision logic of a pipeline that samples spot
//! prices from configured liquidity pools, maintains a sliding window of
//! timestamped observations per pool, computes a time-weighted average price
//! on demand, and decides when an aggregated result may be pushed to an
//! on-chain oracle.  All network effects (the chain client, the signer, the
//! clock) live outside this crate; callers feed their outcomes back in as
//! plain events.

pub mod address;
pub mod batch;
pub mod config;
pub mod coordinator;
pub mod errors;
pub mod window;
pub mod sampler;
