use vstd::arithmetic::div_mod::{lemma_div_is_ordered, lemma_div_is_ordered_by_denominator};
use vstd::math::abs;
use vstd::prelude::*;

use crate::constants::{PRECISION, PRECISION_RATIO};
use crate::error::PerpError;
use crate::market::Market;
use crate::user::{has_live_position, i128_magnitude, Position, User};

verus! {

/// Notional value one slot contributes for `market_index` at `oracle_price`:
/// `|base| * price / PRECISION` for a live position in that market, else zero.
pub open spec fn position_notional_spec(p: Position, market_index: u16, oracle_price: u128) -> int {
    if p.is_live_in(market_index) {
        abs(p.base_asset_amount as int) * oracle_price / PRECISION as int
    } else {
        0
    }
}

/// Total notional exposure of a slot sequence in `market_index` at
/// `oracle_price`.
pub open spec fn total_notional_spec(s: Seq<Position>, market_index: u16, oracle_price: u128) -> int
    decreases s.len(),
{
    if s.len() == 0 {
        0
    } else {
        total_notional_spec(s.drop_last(), market_index, oracle_price) + position_notional_spec(
            s.last(),
            market_index,
            oracle_price,
        )
    }
}

/// When the notional computation stays inside 128-bit arithmetic: every live
/// position's valuation `|base| * price` fits in a `u128`.
pub open spec fn total_notional_ok(s: Seq<Position>, market_index: u16, oracle_price: u128) -> bool {
    forall|k: int|
        0 <= k < s.len() && #[trigger] s[k].is_live_in(market_index) ==> abs(
            s[k].base_asset_amount as int,
        ) * oracle_price <= u128::MAX
}

/// Collateral up-scaled from collateral precision to price precision.
pub open spec fn collateral_value_scaled(collateral: u64) -> int {
    collateral * PRECISION_RATIO as int
}

/// The margin ratio: price-scaled collateral value over total notional, as a
/// rate in millionths (truncating division).
pub open spec fn margin_ratio_spec(collateral: u64, total_notional: int) -> int
    recommends
        total_notional > 0,
{
    (collateral_value_scaled(collateral) * PRECISION) / total_notional
}

/// The initial-margin gate: a flat account passes trivially, otherwise the
/// price-precision-scaled margin ratio must reach the initial threshold,
/// up-scaled from millionths to the same precision.
pub open spec fn meets_initial_margin_spec(
    collateral: u64,
    total_notional: int,
    initial_margin_ratio: u64,
) -> bool {
    total_notional == 0 || margin_ratio_spec(collateral, total_notional) >= initial_margin_ratio
        * PRECISION_RATIO as int
}

/// The liquidation gate: only an exposed account whose margin ratio lies
/// strictly below the maintenance threshold (up-scaled from millionths to
/// price precision) is liquidatable; a ratio exactly at the threshold is
/// solvent.
pub open spec fn liquidatable_spec(
    collateral: u64,
    total_notional: int,
    maintenance_margin_ratio: u64,
) -> bool {
    total_notional != 0 && margin_ratio_spec(collateral, total_notional) < maintenance_margin_ratio
        * PRECISION_RATIO as int
}

/// Every slot contributes a nonnegative notional.
pub proof fn lemma_total_notional_nonneg(s: Seq<Position>, market_index: u16, oracle_price: u128)
    ensures
        total_notional_spec(s, market_index, oracle_price) >= 0,
    decreases s.len(),
{
    if s.len() > 0 {
        lemma_total_notional_nonneg(s.drop_last(), market_index, oracle_price);
    }
}

/// An account with no live position in the market has zero notional exposure.
pub proof fn lemma_no_live_position_zero_notional(
    s: Seq<Position>,
    market_index: u16,
    oracle_price: u128,
)
    requires
        !has_live_position(s, market_index),
    ensures
        total_notional_spec(s, market_index, oracle_price) == 0,
    decreases s.len(),
{
    if s.len() > 0 {
        assert(!has_live_position(s.drop_last(), market_index));
        lemma_no_live_position_zero_notional(s.drop_last(), market_index, oracle_price);
        assert(!s[s.len() - 1].is_live_in(market_index));
    }
}

/// Positive notional exposure requires a live position in the market.
pub proof fn lemma_positive_notional_has_live_position(
    s: Seq<Position>,
    market_index: u16,
    oracle_price: u128,
)
    requires
        total_notional_spec(s, market_index, oracle_price) != 0,
    ensures
        has_live_position(s, market_index),
{
    if !has_live_position(s, market_index) {
        lemma_no_live_position_zero_notional(s, market_index, oracle_price);
    }
}

/// Margin invariant: an account with zero notional exposure in a market always
/// meets the initial-margin requirement and is never liquidatable, whatever
/// its collateral and the market's thresholds. An account with no live
/// position in the market has zero exposure by
/// `lemma_no_live_position_zero_notional`.
pub proof fn lemma_flat_account_is_safe(
    s: Seq<Position>,
    market_index: u16,
    oracle_price: u128,
    collateral: u64,
    initial_margin_ratio: u64,
    maintenance_margin_ratio: u64,
)
    requires
        total_notional_spec(s, market_index, oracle_price) == 0,
    ensures
        meets_initial_margin_spec(
            collateral,
            total_notional_spec(s, market_index, oracle_price),
            initial_margin_ratio,
        ),
        !liquidatable_spec(
            collateral,
            total_notional_spec(s, market_index, oracle_price),
            maintenance_margin_ratio,
        ),
{
}

/// Growing any slot's base amount in magnitude, with the market tags fixed,
/// never shrinks the total notional exposure.
pub proof fn lemma_total_notional_monotone(
    s1: Seq<Position>,
    s2: Seq<Position>,
    market_index: u16,
    oracle_price: u128,
)
    requires
        s1.len() == s2.len(),
        forall|k: int|
            0 <= k < s1.len() ==> #[trigger] s2[k].market_index == s1[k].market_index && abs(
                s1[k].base_asset_amount as int,
            ) <= abs(s2[k].base_asset_amount as int),
    ensures
        total_notional_spec(s1, market_index, oracle_price) <= total_notional_spec(
            s2,
            market_index,
            oracle_price,
        ),
    decreases s1.len(),
{
    if s1.len() > 0 {
        lemma_total_notional_monotone(s1.drop_last(), s2.drop_last(), market_index, oracle_price);
        let p1 = s1.last();
        let p2 = s2.last();
        if p1.is_live_in(market_index) {
            assert(p2.is_live_in(market_index));
            assert(abs(p1.base_asset_amount as int) * oracle_price <= abs(
                p2.base_asset_amount as int,
            ) * oracle_price) by (nonlinear_arith)
                requires
                    abs(p1.base_asset_amount as int) <= abs(p2.base_asset_amount as int),
            ;
            lemma_div_is_ordered(
                abs(p1.base_asset_amount as int) * oracle_price,
                abs(p2.base_asset_amount as int) * oracle_price,
                PRECISION as int,
            );
        } else {
            lemma_total_notional_nonneg(s2, market_index, oracle_price);
            if p2.is_live_in(market_index) {
                vstd::arithmetic::div_mod::lemma_div_pos_is_pos(
                    abs(p2.base_asset_amount as int) * oracle_price,
                    PRECISION as int,
                );
                assert(abs(p2.base_asset_amount as int) * oracle_price >= 0) by (nonlinear_arith);
            }
        }
    }
}

/// At fixed collateral, a larger total notional never yields a larger margin
/// ratio.
pub proof fn lemma_margin_ratio_antitone(collateral: u64, t1: int, t2: int)
    requires
        0 < t1 <= t2,
    ensures
        margin_ratio_spec(collateral, t2) <= margin_ratio_spec(collateral, t1),
{
    assert(collateral_value_scaled(collateral) * PRECISION >= 0) by (nonlinear_arith);
    lemma_div_is_ordered_by_denominator(collateral_value_scaled(collateral) * PRECISION, t1, t2);
}

/// Monotonicity of risk: increasing the magnitude of any position's base
/// amount at fixed collateral and fixed oracle price never increases the
/// margin ratio.
pub proof fn lemma_margin_ratio_monotone_in_exposure(
    s1: Seq<Position>,
    s2: Seq<Position>,
    market_index: u16,
    oracle_price: u128,
    collateral: u64,
)
    requires
        s1.len() == s2.len(),
        forall|k: int|
            0 <= k < s1.len() ==> #[trigger] s2[k].market_index == s1[k].market_index && abs(
                s1[k].base_asset_amount as int,
            ) <= abs(s2[k].base_asset_amount as int),
        total_notional_spec(s1, market_index, oracle_price) > 0,
    ensures
        margin_ratio_spec(collateral, total_notional_spec(s2, market_index, oracle_price))
            <= margin_ratio_spec(collateral, total_notional_spec(s1, market_index, oracle_price)),
{
    lemma_total_notional_monotone(s1, s2, market_index, oracle_price);
    lemma_margin_ratio_antitone(
        collateral,
        total_notional_spec(s1, market_index, oracle_price),
        total_notional_spec(s2, market_index, oracle_price),
    );
}

/// Monotonicity at the initial-margin gate: an account that fails the check
/// keeps failing when any of its positions grows in magnitude at fixed
/// collateral, market tags and oracle price.
pub proof fn lemma_initial_margin_gate_antitone(
    s1: Seq<Position>,
    s2: Seq<Position>,
    market_index: u16,
    oracle_price: u128,
    collateral: u64,
    initial_margin_ratio: u64,
)
    requires
        s1.len() == s2.len(),
        forall|k: int|
            0 <= k < s1.len() ==> #[trigger] s2[k].market_index == s1[k].market_index && abs(
                s1[k].base_asset_amount as int,
            ) <= abs(s2[k].base_asset_amount as int),
        !meets_initial_margin_spec(
            collateral,
            total_notional_spec(s1, market_index, oracle_price),
            initial_margin_ratio,
        ),
    ensures
        !meets_initial_margin_spec(
            collateral,
            total_notional_spec(s2, market_index, oracle_price),
            initial_margin_ratio,
        ),
{
    lemma_total_notional_nonneg(s1, market_index, oracle_price);
    lemma_total_notional_monotone(s1, s2, market_index, oracle_price);
    lemma_margin_ratio_monotone_in_exposure(s1, s2, market_index, oracle_price, collateral);
}

/// Sums the notional exposure of the account's live positions in the market at
/// `oracle_price`, in price-precision units.
pub fn get_total_position_value(user: &User, market: &Market, oracle_price: u128) -> (r: Result<
    u128,
    PerpError,
>)
    requires
        user.wf(),
    ensures
        r matches Ok(v) ==> total_notional_ok(user.positions@, market.market_index, oracle_price)
            && v == total_notional_spec(user.positions@, market.market_index, oracle_price),
        r is Err ==> r == Err::<u128, PerpError>(PerpError::MathOverflow) && !total_notional_ok(
            user.positions@,
            market.market_index,
            oracle_price,
        ),
{
    let market_index = market.market_index;
    let n = user.positions.len();
    let mut total: u128 = 0;
    let mut i: usize = 0;
    while i < n
        invariant
            user.wf(),
            market_index == market.market_index,
            n == user.positions@.len(),
            i <= n,
            total == total_notional_spec(user.positions@.take(i as int), market_index, oracle_price),
            total <= i * (u128::MAX as int / PRECISION as int),
            total_notional_ok(user.positions@.take(i as int), market_index, oracle_price),
        decreases n - i,
    {
        let p = user.positions[i];
        proof {
            assert(user.positions@.take(i + 1).drop_last() =~= user.positions@.take(i as int));
            assert(user.positions@.take(i + 1).last() == user.positions@[i as int]);
        }
        if p.market_index == market_index && p.base_asset_amount != 0 {
            let magnitude = i128_magnitude(p.base_asset_amount);
            let valuation = match magnitude.checked_mul(oracle_price) {
                Some(v) => v,
                None => {
                    proof {
                        assert(user.positions@[i as int].is_live_in(market.market_index));
                        assert(abs(user.positions@[i as int].base_asset_amount as int)
                            * oracle_price > u128::MAX);
                        assert(!total_notional_ok(
                            user.positions@,
                            market.market_index,
                            oracle_price,
                        ));
                    }
                    return Err(PerpError::MathOverflow);
                },
            };
            let value = valuation / PRECISION;
            proof {
                let bound = u128::MAX as int / PRECISION as int;
                lemma_div_is_ordered(valuation as int, u128::MAX as int, PRECISION as int);
                assert((i + 1) * bound == i * bound + bound) by (nonlinear_arith);
                assert((i + 1) * bound <= n * bound) by (nonlinear_arith)
                    requires
                        i + 1 <= n && bound >= 0,
                ;
                assert(n * bound <= u128::MAX) by (nonlinear_arith)
                    requires
                        n <= 8 && bound == u128::MAX as int / PRECISION as int,
                ;
            }
            total = total + value;
        }
        i = i + 1;
        proof {
            assert((i - 1) * (u128::MAX as int / PRECISION as int) <= i * (u128::MAX as int
                / PRECISION as int)) by (nonlinear_arith);
        }
    }
    proof {
        assert(user.positions@.take(n as int) =~= user.positions@);
    }
    Ok(total)
}

/// Whether the account's margin ratio in this market, valued at
/// `oracle_price`, reaches the market's initial-margin threshold. Gates every
/// position-increasing trade and every withdrawal.
pub fn meets_initial_margin_requirement(user: &User, market: &Market, oracle_price: u128) -> (r:
    Result<bool, PerpError>)
    requires
        user.wf(),
    ensures
        r matches Ok(b) ==> total_notional_ok(user.positions@, market.market_index, oracle_price)
            && b == meets_initial_margin_spec(
            user.collateral,
            total_notional_spec(user.positions@, market.market_index, oracle_price),
            market.initial_margin_ratio,
        ),
        r is Err ==> r == Err::<bool, PerpError>(PerpError::MathOverflow) && !total_notional_ok(
            user.positions@,
            market.market_index,
            oracle_price,
        ),
{
    let total_position_value = match get_total_position_value(user, market, oracle_price) {
        Ok(v) => v,
        Err(e) => {
            return Err(e);
        },
    };
    if total_position_value == 0 {
        return Ok(true);
    }
    let ratio = margin_ratio_exec(user.collateral, total_position_value);
    proof {
        assert((market.initial_margin_ratio as int) * (PRECISION_RATIO as int) <= (u64::MAX as int)
            * (PRECISION_RATIO as int)) by (nonlinear_arith)
            requires
                market.initial_margin_ratio <= u64::MAX,
        ;
    }
    Ok(ratio >= (market.initial_margin_ratio as u128) * PRECISION_RATIO)
}

/// Whether the account's margin ratio in this market, valued at
/// `oracle_price`, lies strictly below the market's maintenance threshold;
/// a ratio exactly at the threshold is still solvent.
pub fn is_liquidatable(user: &User, market: &Market, oracle_price: u128) -> (r: Result<
    bool,
    PerpError,
>)
    requires
        user.wf(),
    ensures
        r matches Ok(b) ==> total_notional_ok(user.positions@, market.market_index, oracle_price)
            && b == liquidatable_spec(
            user.collateral,
            total_notional_spec(user.positions@, market.market_index, oracle_price),
            market.maintenance_margin_ratio,
        ),
        r is Err ==> r == Err::<bool, PerpError>(PerpError::MathOverflow) && !total_notional_ok(
            user.positions@,
            market.market_index,
            oracle_price,
        ),
{
    let total_position_value = match get_total_position_value(user, market, oracle_price) {
        Ok(v) => v,
        Err(e) => {
            return Err(e);
        },
    };
    if total_position_value == 0 {
        return Ok(false);
    }
    let ratio = margin_ratio_exec(user.collateral, total_position_value);
    proof {
        assert((market.maintenance_margin_ratio as int) * (PRECISION_RATIO as int) <= (
        u64::MAX as int) * (PRECISION_RATIO as int)) by (nonlinear_arith)
            requires
                market.maintenance_margin_ratio <= u64::MAX,
        ;
    }
    Ok(ratio < (market.maintenance_margin_ratio as u128) * PRECISION_RATIO)
}

/// The margin ratio for a strictly positive total notional; the scaled
/// numerator always fits in 128 bits.
fn margin_ratio_exec(collateral: u64, total_notional: u128) -> (r: u128)
    requires
        total_notional > 0,
    ensures
        r == margin_ratio_spec(collateral, total_notional as int),
{
    proof {
        assert((collateral as int) * (PRECISION_RATIO as int) * (PRECISION as int) <= (
        u64::MAX as int) * (PRECISION_RATIO as int) * (PRECISION as int)) by (nonlinear_arith)
            requires
                collateral <= u64::MAX,
        ;
    }
    let scaled_collateral = (collateral as u128) * PRECISION_RATIO;
    let numerator = scaled_collateral * PRECISION;
    numerator / total_notional
}

} // verus!
