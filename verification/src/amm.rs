use vstd::arithmetic::div_mod::{
    lemma_div_is_ordered_by_denominator, lemma_div_multiples_vanish, lemma_fundamental_div_mod,
};
use vstd::prelude::*;

use crate::error::PerpError;

verus! {

/// Which way a trade moves the pool: a long trade takes base asset out of the
/// pool, a short trade hands base asset back to it.
#[derive(Clone, Copy, Debug, PartialEq, Eq, Structural)]
pub enum TradeDirection {
    Long,
    Short,
}

/// Base reserve after swapping `amount` in direction `dir`, as unbounded math.
pub open spec fn new_base_reserve_spec(amount: u128, base_reserve: u128, dir: TradeDirection) -> int {
    match dir {
        TradeDirection::Long => base_reserve - amount,
        TradeDirection::Short => base_reserve + amount,
    }
}

/// What a constant-product swap returns: `(new_quote_reserve, new_base_reserve)`
/// with `new_quote_reserve = k / new_base_reserve` truncated toward zero, a
/// deliberate rounding policy. The swap is refused when a reserve is already
/// zero, when the new base reserve would be zero or negative, or when the new
/// quote reserve would truncate to zero -- a swap never leaves an emptied pool
/// behind (`UnhealthyMarketState`); and when the reserve product or the new
/// base reserve does not fit in 128 bits (`MathOverflow`).
pub open spec fn swap_output_spec(
    amount: u128,
    base_reserve: u128,
    quote_reserve: u128,
    dir: TradeDirection,
) -> Result<(u128, u128), PerpError> {
    let k = base_reserve * quote_reserve;
    let new_base = new_base_reserve_spec(amount, base_reserve, dir);
    if base_reserve == 0 || quote_reserve == 0 {
        Err(PerpError::UnhealthyMarketState)
    } else if k > u128::MAX {
        Err(PerpError::MathOverflow)
    } else if new_base <= 0 {
        Err(PerpError::UnhealthyMarketState)
    } else if new_base > u128::MAX {
        Err(PerpError::MathOverflow)
    } else if k / new_base == 0 {
        Err(PerpError::UnhealthyMarketState)
    } else {
        Ok(((k / new_base) as u128, new_base as u128))
    }
}

/// Prices one swap against the virtual pool and returns
/// `(new_quote_asset_reserve, new_base_asset_reserve)`.
pub fn calculate_swap_output(
    base_asset_amount: u128,
    base_asset_reserve: u128,
    quote_asset_reserve: u128,
    direction: TradeDirection,
) -> (r: Result<(u128, u128), PerpError>)
    ensures
        r == swap_output_spec(base_asset_amount, base_asset_reserve, quote_asset_reserve, direction),
{
    if base_asset_reserve == 0 || quote_asset_reserve == 0 {
        return Err(PerpError::UnhealthyMarketState);
    }

    let k = match base_asset_reserve.checked_mul(quote_asset_reserve) {
        Some(k) => k,
        None => {
            return Err(PerpError::MathOverflow);
        },
    };

    let new_base_asset_reserve = match direction {
        TradeDirection::Long => {
            if base_asset_amount >= base_asset_reserve {
                return Err(PerpError::UnhealthyMarketState);
            }
            base_asset_reserve - base_asset_amount
        },
        TradeDirection::Short => {
            match base_asset_reserve.checked_add(base_asset_amount) {
                Some(b) => b,
                None => {
                    return Err(PerpError::MathOverflow);
                },
            }
        },
    };

    let new_quote_asset_reserve = k / new_base_asset_reserve;
    if new_quote_asset_reserve == 0 {
        return Err(PerpError::UnhealthyMarketState);
    }
    Ok((new_quote_asset_reserve, new_base_asset_reserve))
}

/// AMM invariant: a successful swap keeps the product of the reserves at or
/// below the pre-trade constant `k` (equality absent the truncation of
/// `k / new_base`), and both reserves strictly positive; after a long trade
/// the quote reserve is at least the old quote reserve.
pub proof fn lemma_swap_preserves_invariant(
    amount: u128,
    base_reserve: u128,
    quote_reserve: u128,
    dir: TradeDirection,
    new_quote: u128,
    new_base: u128,
)
    requires
        swap_output_spec(amount, base_reserve, quote_reserve, dir)
            == Ok::<(u128, u128), PerpError>((new_quote, new_base)),
    ensures
        new_base * new_quote <= base_reserve * quote_reserve,
        new_base >= 1,
        new_quote >= 1,
        dir == TradeDirection::Long ==> new_quote >= quote_reserve,
{
    let k = (base_reserve * quote_reserve) as int;
    assert(new_quote == k / new_base as int);
    lemma_fundamental_div_mod(k, new_base as int);
    assert(new_base * new_quote <= k) by {
        assert(k == (new_base as int) * (k / new_base as int) + k % new_base as int);
        assert(k % new_base as int >= 0);
    }
    if dir == TradeDirection::Long {
        assert(new_base <= base_reserve);
        lemma_div_is_ordered_by_denominator(k, new_base as int, base_reserve as int);
        lemma_div_multiples_vanish(quote_reserve as int, base_reserve as int);
        assert(k / base_reserve as int == quote_reserve);
    }
}

} // verus!
