use vstd::arithmetic::div_mod::{
    lemma_basic_div, lemma_div_is_ordered, lemma_div_is_ordered_by_denominator,
    lemma_div_multiples_vanish, lemma_div_non_zero, lemma_fundamental_div_mod,
};
use vstd::math::abs;
use vstd::prelude::*;

use crate::amm::{calculate_swap_output, swap_output_spec, TradeDirection};
use crate::constants::PRECISION;
use crate::error::PerpError;
use crate::margin::{
    meets_initial_margin_requirement, meets_initial_margin_spec, total_notional_ok,
    total_notional_spec,
};
use crate::market::Market;
use crate::user::{
    close_slot_spec, empty_position_spec, has_empty_slot, has_live_position, has_slot_for_market,
    i128_magnitude, is_first_empty_slot, is_first_live_slot, is_first_slot_for_market, Position,
    User,
};
use crate::validation::{feed_ids_match, oracle_price_spec, validate_oracle_price, PriceObservation};

verus! {

/// A positive base amount buys base asset (long); anything else sells (short).
pub open spec fn trade_direction_of(base_asset_amount: i128) -> TradeDirection {
    if base_asset_amount > 0 {
        TradeDirection::Long
    } else {
        TradeDirection::Short
    }
}

/// The slot a trade in `market_index` uses: the first slot already tagged with
/// the market if one exists, else the first empty slot.
pub open spec fn chosen_slot_spec(s: Seq<Position>, market_index: u16) -> int {
    if has_slot_for_market(s, market_index) {
        choose|i: int| is_first_slot_for_market(s, market_index, i)
    } else {
        choose|i: int| is_first_empty_slot(s, i)
    }
}

/// Two first slots for the same market are the same slot.
pub proof fn lemma_first_slot_for_market_unique(s: Seq<Position>, market_index: u16, i: int, j: int)
    requires
        is_first_slot_for_market(s, market_index, i),
        is_first_slot_for_market(s, market_index, j),
    ensures
        i == j,
{
}

/// Two first empty slots are the same slot.
pub proof fn lemma_first_empty_slot_unique(s: Seq<Position>, i: int, j: int)
    requires
        is_first_empty_slot(s, i),
        is_first_empty_slot(s, j),
    ensures
        i == j,
{
}

/// Two first live slots for the same market are the same slot.
pub proof fn lemma_first_live_slot_unique(s: Seq<Position>, market_index: u16, i: int, j: int)
    requires
        is_first_live_slot(s, market_index, i),
        is_first_live_slot(s, market_index, j),
    ensures
        i == j,
{
}

/// What opening (or increasing) a position yields: the market with its
/// reserves moved along the constant-product curve, and the slot sequence with
/// the trade's base amount and quote cost accumulated onto the chosen slot.
/// Collateral is untouched; the errors come in the order the checks run: the
/// re-entrancy guard, the pause flag, the swap itself, the entry-price
/// computation, the caller's limit price, slot capacity, position-size
/// arithmetic, the oracle, and last the initial-margin gate.
pub open spec fn open_position_spec(
    s: Seq<Position>,
    collateral: u64,
    locked: bool,
    m: Market,
    base_asset_amount: i128,
    limit_price: u128,
    obs: PriceObservation,
    now: i64,
) -> Result<(Market, Seq<Position>), PerpError> {
    let dir = trade_direction_of(base_asset_amount);
    let magnitude = abs(base_asset_amount as int) as u128;
    if locked {
        Err(PerpError::ReentrancyGuardActive)
    } else if m.paused {
        Err(PerpError::MarketPaused)
    } else {
        match swap_output_spec(
            magnitude,
            m.amm_base_asset_reserve,
            m.amm_quote_asset_reserve,
            dir,
        ) {
            Err(e) => Err(e),
            Ok((new_quote, new_base)) => {
                let quote_delta = abs(m.amm_quote_asset_reserve - new_quote) as u128;
                if quote_delta * PRECISION > u128::MAX {
                    Err(PerpError::MathOverflow)
                } else if magnitude == 0 {
                    Err(PerpError::MathOverflow)
                } else {
                    let entry_price = quote_delta * PRECISION / magnitude as int;
                    if dir == TradeDirection::Long && limit_price < entry_price {
                        Err(PerpError::PriceSlippage)
                    } else if dir == TradeDirection::Short && limit_price > entry_price {
                        Err(PerpError::PriceSlippage)
                    } else if !has_slot_for_market(s, m.market_index) && !has_empty_slot(s) {
                        Err(PerpError::InvalidMarketIndex)
                    } else {
                        let i = chosen_slot_spec(s, m.market_index);
                        let p0 = Position { market_index: m.market_index, ..s[i] };
                        if p0.base_asset_amount + base_asset_amount > i128::MAX
                            || p0.base_asset_amount + base_asset_amount < i128::MIN {
                            Err(PerpError::MathOverflow)
                        } else if p0.quote_asset_amount + quote_delta > u128::MAX {
                            Err(PerpError::MathOverflow)
                        } else {
                            let p1 = Position {
                                base_asset_amount: (p0.base_asset_amount + base_asset_amount)
                                    as i128,
                                quote_asset_amount: (p0.quote_asset_amount + quote_delta) as u128,
                                ..p0
                            };
                            let s1 = s.update(i, p1);
                            if obs.feed_id@ != m.oracle_price_feed@ {
                                Err(PerpError::InvalidOraclePrice)
                            } else {
                                match oracle_price_spec(obs, now) {
                                    Err(e) => Err(e),
                                    Ok(oracle_price) => {
                                        if !total_notional_ok(s1, m.market_index, oracle_price) {
                                            Err(PerpError::MathOverflow)
                                        } else if !meets_initial_margin_spec(
                                            collateral,
                                            total_notional_spec(s1, m.market_index, oracle_price),
                                            m.initial_margin_ratio,
                                        ) {
                                            Err(PerpError::PositionCausesMarginCall)
                                        } else {
                                            Ok(
                                                (
                                                    Market {
                                                        amm_base_asset_reserve: new_base,
                                                        amm_quote_asset_reserve: new_quote,
                                                        ..m
                                                    },
                                                    s1,
                                                ),
                                            )
                                        }
                                    },
                                }
                            }
                        }
                    }
                }
            },
        }
    }
}

/// Opens a new position or increases an existing one in `market`. The whole
/// operation commits only if every check passes; on any failure both the
/// account and the market are left exactly as they were.
pub fn handle_open_position(
    user: &mut User,
    market: &mut Market,
    base_asset_amount: i128,
    limit_price: u128,
    obs: &PriceObservation,
    now: i64,
) -> (r: Result<(), PerpError>)
    requires
        old(user).wf(),
    ensures
        final(user).wf(),
        old(market).wf() && (r matches Ok(_)) ==> final(market).wf(),
        final(user).collateral == old(user).collateral,
        final(user).operation_lock == old(user).operation_lock,
        open_position_spec(
            old(user).positions@,
            old(user).collateral,
            old(user).operation_lock,
            *old(market),
            base_asset_amount,
            limit_price,
            *obs,
            now,
        ) matches Ok(t) ==> r == Ok::<(), PerpError>(()) && *final(market) == t.0
            && final(user).positions@ == t.1,
        open_position_spec(
            old(user).positions@,
            old(user).collateral,
            old(user).operation_lock,
            *old(market),
            base_asset_amount,
            limit_price,
            *obs,
            now,
        ) matches Err(e) ==> r == Err::<(), PerpError>(e) && *final(market) == *old(market)
            && final(user).positions@ == old(user).positions@,
{
    if user.operation_lock {
        return Err(PerpError::ReentrancyGuardActive);
    }
    if market.paused {
        return Err(PerpError::MarketPaused);
    }

    let direction = if base_asset_amount > 0 {
        TradeDirection::Long
    } else {
        TradeDirection::Short
    };
    let magnitude = i128_magnitude(base_asset_amount);

    let (new_quote, new_base) = match calculate_swap_output(
        magnitude,
        market.amm_base_asset_reserve,
        market.amm_quote_asset_reserve,
        direction,
    ) {
        Ok(t) => t,
        Err(e) => {
            return Err(e);
        },
    };

    let quote_delta = if new_quote >= market.amm_quote_asset_reserve {
        new_quote - market.amm_quote_asset_reserve
    } else {
        market.amm_quote_asset_reserve - new_quote
    };

    let scaled_delta = match quote_delta.checked_mul(PRECISION) {
        Some(v) => v,
        None => {
            return Err(PerpError::MathOverflow);
        },
    };
    if magnitude == 0 {
        return Err(PerpError::MathOverflow);
    }
    let entry_price = scaled_delta / magnitude;

    match direction {
        TradeDirection::Long => {
            if limit_price < entry_price {
                return Err(PerpError::PriceSlippage);
            }
        },
        TradeDirection::Short => {
            if limit_price > entry_price {
                return Err(PerpError::PriceSlippage);
            }
        },
    }

    let slot = match user.locate_slot_for_market(market.market_index) {
        Ok(i) => i,
        Err(e) => {
            return Err(e);
        },
    };
    proof {
        let s0 = user.positions@;
        let mi = market.market_index;
        if has_slot_for_market(s0, mi) {
            let c = choose|i: int| is_first_slot_for_market(s0, mi, i);
            assert(is_first_slot_for_market(s0, mi, slot as int));
            assert(is_first_slot_for_market(s0, mi, c));
            lemma_first_slot_for_market_unique(s0, mi, c, slot as int);
        } else {
            let c = choose|i: int| is_first_empty_slot(s0, i);
            assert(is_first_empty_slot(s0, slot as int));
            assert(is_first_empty_slot(s0, c));
            lemma_first_empty_slot_unique(s0, c, slot as int);
        }
        assert(chosen_slot_spec(s0, mi) == slot as int);
    }

    let saved = user.positions[slot];
    let mut tagged = saved;
    tagged.market_index = market.market_index;

    let new_base_amount = match tagged.base_asset_amount.checked_add(base_asset_amount) {
        Some(v) => v,
        None => {
            return Err(PerpError::MathOverflow);
        },
    };
    let new_quote_amount = match tagged.quote_asset_amount.checked_add(quote_delta) {
        Some(v) => v,
        None => {
            return Err(PerpError::MathOverflow);
        },
    };
    let traded = Position {
        base_asset_amount: new_base_amount,
        quote_asset_amount: new_quote_amount,
        ..tagged
    };

    if !feed_ids_match(&obs.feed_id, &market.oracle_price_feed) {
        return Err(PerpError::InvalidOraclePrice);
    }
    let oracle_price = match validate_oracle_price(obs, now) {
        Ok(p) => p,
        Err(e) => {
            return Err(e);
        },
    };

    user.positions.set(slot, traded);

    match meets_initial_margin_requirement(user, market, oracle_price) {
        Err(e) => {
            user.positions.set(slot, saved);
            proof {
                assert(user.positions@ =~= old(user).positions@);
            }
            Err(e)
        },
        Ok(false) => {
            user.positions.set(slot, saved);
            proof {
                assert(user.positions@ =~= old(user).positions@);
            }
            Err(PerpError::PositionCausesMarginCall)
        },
        Ok(true) => {
            proof {
                crate::amm::lemma_swap_preserves_invariant(
                    magnitude,
                    old(market).amm_base_asset_reserve,
                    old(market).amm_quote_asset_reserve,
                    direction,
                    new_quote,
                    new_base,
                );
            }
            market.amm_base_asset_reserve = new_base;
            market.amm_quote_asset_reserve = new_quote;
            Ok(())
        },
    }
}

/// What fully closing the live position in `market_index` yields: the market
/// with the position's base amount swapped back into the pool, the slot
/// emptied, and the collateral adjusted by the realized PnL.
pub open spec fn close_position_spec(
    s: Seq<Position>,
    collateral: u64,
    locked: bool,
    m: Market,
    market_index: u16,
) -> Result<(Market, Seq<Position>, u64), PerpError> {
    if locked {
        Err(PerpError::ReentrancyGuardActive)
    } else if m.paused {
        Err(PerpError::MarketPaused)
    } else if !has_live_position(s, market_index) {
        Err(PerpError::PositionNotFound)
    } else {
        let i = choose|i: int| is_first_live_slot(s, market_index, i);
        let p = s[i];
        let magnitude = abs(p.base_asset_amount as int) as u128;
        let dir = if p.base_asset_amount > 0 {
            TradeDirection::Short
        } else {
            TradeDirection::Long
        };
        match swap_output_spec(
            magnitude,
            m.amm_base_asset_reserve,
            m.amm_quote_asset_reserve,
            dir,
        ) {
            Err(e) => Err(e),
            Ok((new_quote, new_base)) => {
                let quote_returned = abs(m.amm_quote_asset_reserve - new_quote) as u128;
                match close_slot_spec(s, collateral, i, quote_returned) {
                    Err(e) => Err(e),
                    Ok(t) => Ok(
                        (
                            Market {
                                amm_base_asset_reserve: new_base,
                                amm_quote_asset_reserve: new_quote,
                                ..m
                            },
                            t.0,
                            t.1,
                        ),
                    ),
                }
            },
        }
    }
}

/// Fully closes the account's live position in `market_index`, unwinding it
/// against the market's pool at the current curve; the index must name the
/// market whose pool is passed, as the storage layer guarantees. The whole
/// operation commits only if every step succeeds; on any failure both the
/// account and the market are left exactly as they were.
pub fn handle_close_position(user: &mut User, market: &mut Market, market_index: u16) -> (r: Result<
    (),
    PerpError,
>)
    requires
        old(user).wf(),
        old(market).market_index == market_index,
    ensures
        final(user).wf(),
        old(market).wf() && (r matches Ok(_)) ==> final(market).wf(),
        final(user).operation_lock == old(user).operation_lock,
        close_position_spec(
            old(user).positions@,
            old(user).collateral,
            old(user).operation_lock,
            *old(market),
            market_index,
        ) matches Ok(t) ==> r == Ok::<(), PerpError>(()) && *final(market) == t.0
            && final(user).positions@ == t.1 && final(user).collateral == t.2,
        close_position_spec(
            old(user).positions@,
            old(user).collateral,
            old(user).operation_lock,
            *old(market),
            market_index,
        ) matches Err(e) ==> r == Err::<(), PerpError>(e) && *final(market) == *old(market)
            && final(user).positions@ == old(user).positions@
            && final(user).collateral == old(user).collateral,
{
    if user.operation_lock {
        return Err(PerpError::ReentrancyGuardActive);
    }
    if market.paused {
        return Err(PerpError::MarketPaused);
    }

    let slot = match user.find_position_mut(market_index) {
        Ok(i) => i,
        Err(e) => {
            return Err(e);
        },
    };
    proof {
        let s0 = user.positions@;
        let c = choose|i: int| is_first_live_slot(s0, market_index, i);
        assert(is_first_live_slot(s0, market_index, slot as int));
        assert(is_first_live_slot(s0, market_index, c));
        lemma_first_live_slot_unique(s0, market_index, c, slot as int);
    }

    let p = user.positions[slot];
    let magnitude = i128_magnitude(p.base_asset_amount);
    let direction = if p.base_asset_amount > 0 {
        TradeDirection::Short
    } else {
        TradeDirection::Long
    };

    let (new_quote, new_base) = match calculate_swap_output(
        magnitude,
        market.amm_base_asset_reserve,
        market.amm_quote_asset_reserve,
        direction,
    ) {
        Ok(t) => t,
        Err(e) => {
            return Err(e);
        },
    };

    let quote_returned = if new_quote >= market.amm_quote_asset_reserve {
        new_quote - market.amm_quote_asset_reserve
    } else {
        market.amm_quote_asset_reserve - new_quote
    };

    match user.close_position_slot(slot, quote_returned) {
        Ok(()) => {
            proof {
                crate::amm::lemma_swap_preserves_invariant(
                    magnitude,
                    old(market).amm_base_asset_reserve,
                    old(market).amm_quote_asset_reserve,
                    direction,
                    new_quote,
                    new_base,
                );
            }
            market.amm_base_asset_reserve = new_base;
            market.amm_quote_asset_reserve = new_quote;
            Ok(())
        },
        Err(e) => Err(e),
    }
}

/// Round-trip: opening a position and immediately fully closing it at the
/// unchanged pool returns the pool to its pre-trade base reserve and the
/// collateral balance exactly to its pre-trade value, for any trade smaller
/// than the base reserve against a pool whose reserve product covers the
/// round trip (`k >= 2 * base_reserve + amount`, so that neither truncation
/// empties the quote side). The only distortion is the curve's truncating
/// division, which keeps the realized PnL within two price-precision units,
/// below what one collateral-precision unit can register.
pub proof fn lemma_round_trip_restores_collateral(
    base_reserve: u128,
    quote_reserve: u128,
    amount: u128,
    collateral: u64,
    long: bool,
    market_index: u16,
)
    requires
        0 < amount < base_reserve,
        amount <= i128::MAX as u128,
        quote_reserve > 0,
        base_reserve * quote_reserve <= u128::MAX,
        base_reserve * quote_reserve >= 2 * base_reserve + amount,
        !long ==> base_reserve + amount <= u128::MAX,
    ensures
        ({
            let dir_open = if long {
                TradeDirection::Long
            } else {
                TradeDirection::Short
            };
            let dir_close = if long {
                TradeDirection::Short
            } else {
                TradeDirection::Long
            };
            let k0 = base_reserve * quote_reserve;
            let b1 = if long {
                base_reserve - amount
            } else {
                base_reserve + amount
            };
            let q1 = k0 / b1;
            let q2 = b1 * q1 / base_reserve as int;
            let cost = abs(quote_reserve - q1);
            let returned = abs(q1 - q2);
            let opened = Position {
                market_index,
                base_asset_amount: if long {
                    amount as i128
                } else {
                    (-(amount as int)) as i128
                },
                quote_asset_amount: cost as u128,
                last_cumulative_funding_rate: 0,
                last_settled_funding_ts: 0,
            };
            &&& swap_output_spec(amount, base_reserve, quote_reserve, dir_open)
                == Ok::<(u128, u128), PerpError>((q1 as u128, b1 as u128))
            &&& swap_output_spec(amount, b1 as u128, q1 as u128, dir_close)
                == Ok::<(u128, u128), PerpError>((q2 as u128, base_reserve))
            &&& close_slot_spec(seq![opened], collateral, 0, returned as u128)
                == Ok::<(Seq<Position>, u64), PerpError>(
                (seq![empty_position_spec(market_index)], collateral),
            )
        }),
{
    let b0 = base_reserve as int;
    let q0 = quote_reserve as int;
    let k0 = b0 * q0;
    let b1: int = if long {
        b0 - amount
    } else {
        b0 + amount
    };
    let q1 = k0 / b1;
    let r1 = k0 % b1;
    let k1 = b1 * q1;
    let q2 = k1 / b0;

    assert(k0 >= b0) by (nonlinear_arith)
        requires
            b0 >= 1 && q0 >= 1 && k0 == b0 * q0,
    ;

    // The truncated quotient q1 is a value the pool can hold, and the
    // product covers the trade, so at least one quote unit stays behind.
    assert(q1 <= k0) by {
        lemma_div_is_ordered_by_denominator(k0, 1, b1);
    }
    assert(q1 >= 1) by {
        lemma_div_non_zero(k0, b1);
    }

    // The opening swap succeeds with the stated reserves.
    assert(swap_output_spec(
        amount,
        base_reserve,
        quote_reserve,
        if long {
            TradeDirection::Long
        } else {
            TradeDirection::Short
        },
    ) == Ok::<(u128, u128), PerpError>((q1 as u128, b1 as u128)));

    // One full period of the truncation: k0 == b1 * q1 + r1 with 0 <= r1 < b1.
    lemma_fundamental_div_mod(k0, b1);
    assert(k1 == k0 - r1);
    assert(0 <= r1 < b1);

    // Unwinding still leaves a quote unit: what the open left of the product
    // exceeds the restored base reserve.
    assert(k1 >= k0 - b1 + 1);
    assert(k1 > b0);
    assert(q2 >= 1) by {
        lemma_div_non_zero(k1, b0);
    }

    // The closing swap succeeds and returns the base reserve to its start.
    assert(swap_output_spec(
        amount,
        b1 as u128,
        q1 as u128,
        if long {
            TradeDirection::Short
        } else {
            TradeDirection::Long
        },
    ) == Ok::<(u128, u128), PerpError>((q2 as u128, base_reserve))) by {
        assert(k1 <= k0);
        assert(q2 <= k1) by {
            lemma_div_is_ordered_by_denominator(k1, 1, b0);
        }
    }

    // q2 never exceeds q0, and falls short of it by at most two units.
    lemma_div_multiples_vanish(q0, b0);
    assert(k0 / b0 == q0);
    assert(q2 <= q0) by {
        lemma_div_is_ordered(k1, k0, b0);
    }
    assert(b1 <= 2 * b0 - 1);
    assert(k1 >= k0 - (2 * b0 - 2));
    assert(q2 >= q0 - 2) by {
        assert(b0 * (q0 - 2) <= k1) by (nonlinear_arith)
            requires
                k1 >= b0 * q0 - 2 * b0 + 2 && b0 >= 1,
        ;
        lemma_div_is_ordered(b0 * (q0 - 2), k1, b0);
        lemma_div_multiples_vanish(q0 - 2, b0);
    }

    // The realized PnL of the round trip is q0 - q2, within [0, 2].
    lemma_div_multiples_vanish(q1, b1);
    assert(k1 / b1 == q1);
    if long {
        assert(q1 >= q0) by {
            lemma_div_is_ordered_by_denominator(k0, b1, b0);
        }
        assert(q2 <= q1) by {
            lemma_div_is_ordered_by_denominator(k1, b1, b0);
        }
    } else {
        assert(q1 <= q0) by {
            lemma_div_is_ordered_by_denominator(k0, b0, b1);
        }
        assert(q2 >= q1) by {
            lemma_div_is_ordered_by_denominator(k1, b0, b1);
        }
    }

    // Closing the opened position hands the collateral back unchanged.
    let cost = abs(q0 - q1);
    let returned = abs(q1 - q2);
    let opened = Position {
        market_index,
        base_asset_amount: if long {
            amount as i128
        } else {
            (-(amount as int)) as i128
        },
        quote_asset_amount: cost as u128,
        last_cumulative_funding_rate: 0,
        last_settled_funding_ts: 0,
    };
    let pnl: int = if long {
        returned - cost
    } else {
        cost - returned
    };
    assert(pnl == q0 - q2);
    assert(0 <= pnl <= 2);
    lemma_basic_div(pnl, crate::constants::PRECISION_RATIO as int);
    assert(seq![opened].update(0, empty_position_spec(market_index)) =~= seq![
        empty_position_spec(market_index),
    ]);
}

/// The quotient of two nonnegative values is nonnegative.
proof fn lemma_div_pos(x: int, d: int)
    requires
        x >= 0,
        d >= 1,
    ensures
        x / d >= 0,
{
    vstd::arithmetic::div_mod::lemma_div_pos_is_pos(x, d);
}

} // verus!

