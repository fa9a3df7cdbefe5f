use vstd::arithmetic::power::{
    lemma_pow0, lemma_pow1, lemma_pow_adds, lemma_pow_increases, lemma_pow_positive, pow,
};
use vstd::prelude::*;

use crate::constants::{ORACLE_STALENESS_THRESHOLD, PRECISION};
use crate::error::PerpError;
use crate::market::Market;
use crate::user::User;

verus! {

/// One raw observation from the reference price feed: a signed mantissa, a
/// power-of-ten exponent, the observation time and the feed's identity.
#[derive(Clone, Copy, Debug)]
pub struct PriceObservation {
    /// Identity of the feed the observation came from.
    pub feed_id: [u8; 32],
    /// Signed price mantissa.
    pub mantissa: i64,
    /// Power-of-ten exponent of the mantissa.
    pub exponent: i32,
    /// When the observation was made, in seconds.
    pub publish_time: i64,
}

/// What oracle validation yields: the observation normalized to
/// `mantissa * PRECISION / 10^|exponent|`, or the first failing check. An
/// observation older than the staleness threshold is rejected, then an
/// upscaled (positive exponent) or negative price, and finally a scale factor
/// that does not fit in 128 bits.
pub open spec fn oracle_price_spec(obs: PriceObservation, now: i64) -> Result<u128, PerpError> {
    if now - obs.publish_time > ORACLE_STALENESS_THRESHOLD {
        Err(PerpError::StaleOraclePrice)
    } else if obs.exponent > 0 {
        Err(PerpError::InvalidOraclePrice)
    } else if obs.mantissa < 0 {
        Err(PerpError::InvalidOraclePrice)
    } else if pow(10, (-(obs.exponent as int)) as nat) > u128::MAX {
        Err(PerpError::MathOverflow)
    } else {
        Ok(((obs.mantissa * PRECISION) / pow(10, (-(obs.exponent as int)) as nat)) as u128)
    }
}

/// Ten to the `n`, or `MathOverflow` when it does not fit in 128 bits.
fn pow10_u128(n: u32) -> (r: Result<u128, PerpError>)
    ensures
        r matches Ok(v) ==> v == pow(10, n as nat),
        r is Err ==> r == Err::<u128, PerpError>(PerpError::MathOverflow) && pow(10, n as nat)
            > u128::MAX,
{
    let mut acc: u128 = 1;
    let mut i: u32 = 0;
    proof {
        lemma_pow0(10);
    }
    while i < n
        invariant
            i <= n,
            acc == pow(10, i as nat),
        decreases n - i,
    {
        proof {
            lemma_pow1(10);
            lemma_pow_adds(10, i as nat, 1nat);
            assert(pow(10, (i + 1) as nat) == 10 * pow(10, i as nat));
        }
        acc = match acc.checked_mul(10) {
            Some(a) => a,
            None => {
                proof {
                    lemma_pow_increases(10, (i + 1) as nat, n as nat);
                }
                return Err(PerpError::MathOverflow);
            },
        };
        i = i + 1;
    }
    Ok(acc)
}

/// Checks an oracle observation against the current time and normalizes it to
/// the price-precision scale. A stale or malformed observation is terminal for
/// the calling operation: no default or old price is ever substituted.
pub fn validate_oracle_price(obs: &PriceObservation, now: i64) -> (r: Result<u128, PerpError>)
    ensures
        r == oracle_price_spec(*obs, now),
{
    if (now as i128) - (obs.publish_time as i128) > (ORACLE_STALENESS_THRESHOLD as i128) {
        return Err(PerpError::StaleOraclePrice);
    }
    if obs.exponent > 0 {
        return Err(PerpError::InvalidOraclePrice);
    }
    if obs.mantissa < 0 {
        return Err(PerpError::InvalidOraclePrice);
    }

    let magnitude: u32 = if obs.exponent == 0 {
        0
    } else {
        ((-(obs.exponent + 1)) as u32) + 1
    };
    let scale_factor = match pow10_u128(magnitude) {
        Ok(s) => s,
        Err(e) => {
            return Err(e);
        },
    };

    let mantissa = obs.mantissa as u128;
    proof {
        lemma_pow_positive(10, magnitude as nat);
        assert(mantissa * PRECISION <= (i64::MAX as u128) * PRECISION) by (nonlinear_arith)
            requires
                mantissa <= i64::MAX as u128,
        ;
    }
    let scaled = mantissa * PRECISION;
    Ok(scaled / scale_factor)
}

/// Rejects an account that is already inside another operation.
pub fn validate_user_not_locked(user: &User) -> (r: Result<(), PerpError>)
    ensures
        r == if user.operation_lock {
            Err::<(), PerpError>(PerpError::ReentrancyGuardActive)
        } else {
            Ok::<(), PerpError>(())
        },
{
    if user.operation_lock {
        Err(PerpError::ReentrancyGuardActive)
    } else {
        Ok(())
    }
}

/// Rejects a market that is paused for trading.
pub fn validate_market_not_paused(market: &Market) -> (r: Result<(), PerpError>)
    ensures
        r == if market.paused {
            Err::<(), PerpError>(PerpError::MarketPaused)
        } else {
            Ok::<(), PerpError>(())
        },
{
    if market.paused {
        Err(PerpError::MarketPaused)
    } else {
        Ok(())
    }
}

/// Whether an observation's feed identity is the one the market registered.
pub fn feed_ids_match(observed: &[u8; 32], registered: &[u8; 32]) -> (r: bool)
    ensures
        r <==> observed@ == registered@,
{
    let mut i: usize = 0;
    while i < 32
        invariant
            i <= 32,
            forall|k: int| 0 <= k < i ==> observed@[k] == registered@[k],
        decreases 32 - i,
    {
        if observed[i] != registered[i] {
            return false;
        }
        i = i + 1;
    }
    proof {
        assert(observed@ =~= registered@);
    }
    true
}

} // verus!
