//! Conversion of raw pool reserves into a fixed-point spot price.
//!
//! A sample reads the two reserve balances of a pool at one block; the spot
//! price of token0 in terms of token1 is the reserve ratio, scaled by
//! [`PRICE_SCALE`] and rounded down, so that no floating point is involved.
//! The network read itself happens outside this crate; callers hand the two
//! reserves (and the block timestamp and number) in as plain integers.

use vstd::prelude::*;
use crate::errors::SampleError;
use crate::window::PriceObservation;

verus! {

/// Fixed-point scale of every price in the pipeline: a stored price `p`
/// stands for the rational `p / PRICE_SCALE`.
pub const PRICE_SCALE: u64 = 1_000_000_000;

/// The scaled reserve ratio `reserve1 * PRICE_SCALE / reserve0`, rounded
/// down (meaningful only for `reserve0 > 0`).
pub open spec fn spec_price(reserve0: int, reserve1: int) -> int {
    (reserve1 * PRICE_SCALE) / reserve0
}

/// Converts one pool's reserves into a fixed-point spot price.
///
/// A zero reserve on either side marks an empty (or one-sided) pool and is
/// reported as `EmptyPoolError` rather than dividing by zero; a ratio too
/// extreme for the price type is reported as `MalformedResponseError`.
pub fn price_from_reserves(reserve0: u64, reserve1: u64) -> (r: Result<u64, SampleError>)
    ensures
        (reserve0 == 0 || reserve1 == 0) ==> r == Err::<u64, SampleError>(
            SampleError::EmptyPoolError,
        ),
        reserve0 != 0 && reserve1 != 0 && spec_price(reserve0 as int, reserve1 as int)
            > u64::MAX ==> r == Err::<u64, SampleError>(SampleError::MalformedResponseError),
        reserve0 != 0 && reserve1 != 0 && spec_price(reserve0 as int, reserve1 as int)
            <= u64::MAX ==> r == Ok::<u64, SampleError>(
            spec_price(reserve0 as int, reserve1 as int) as u64,
        ),
{
    if reserve0 == 0 || reserve1 == 0 {
        return Err(SampleError::EmptyPoolError);
    }
    assert((reserve1 as int) * (PRICE_SCALE as int) <= (u64::MAX as int) * (PRICE_SCALE as int))
        by (nonlinear_arith)
        requires reserve1 <= u64::MAX;
    let numerator: u128 = (reserve1 as u128) * (PRICE_SCALE as u128);
    let quotient: u128 = numerator / (reserve0 as u128);
    if quotient > u64::MAX as u128 {
        Err(SampleError::MalformedResponseError)
    } else {
        Ok(quotient as u64)
    }
}

/// Turns one raw sample — the two reserves read at a block, with that
/// block's timestamp and number — into a price observation, with the same
/// error conditions as [`price_from_reserves`].
pub fn observation_from_sample(
    reserve0: u64,
    reserve1: u64,
    timestamp: u64,
    block_number: u64,
) -> (r: Result<PriceObservation, SampleError>)
    ensures
        (match r {
            Ok(o) => {
                &&& reserve0 != 0 && reserve1 != 0
                &&& spec_price(reserve0 as int, reserve1 as int) <= u64::MAX
                &&& o == (PriceObservation {
                    price: spec_price(reserve0 as int, reserve1 as int) as u64,
                    timestamp,
                    block_number,
                })
            },
            Err(e) => {
                &&& (e == SampleError::EmptyPoolError <==> reserve0 == 0 || reserve1 == 0)
                &&& (e == SampleError::MalformedResponseError <==> reserve0 != 0 && reserve1 != 0
                    && spec_price(reserve0 as int, reserve1 as int) > u64::MAX)
                &&& (e == SampleError::EmptyPoolError || e == SampleError::MalformedResponseError)
            },
        }),
{
    match price_from_reserves(reserve0, reserve1) {
        Ok(price) => Ok(PriceObservation { price, timestamp, block_number }),
        Err(e) => Err(e),
    }
}

} // verus!
