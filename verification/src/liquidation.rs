use vstd::math::abs;
use vstd::prelude::*;

use crate::constants::{PRECISION, PRECISION_RATIO, RATE_DENOMINATOR};
use crate::error::PerpError;
use crate::margin::{
    is_liquidatable, lemma_positive_notional_has_live_position, liquidatable_spec,
    total_notional_ok, total_notional_spec,
};
use crate::market::{mark_price_result_spec, Market};
use crate::trade::lemma_first_live_slot_unique;
use crate::user::{
    empty_position, empty_position_spec, i128_magnitude, is_first_live_slot, User,
};
use crate::validation::{
    feed_ids_match, oracle_price_spec, validate_oracle_price, PriceObservation,
};

verus! {

/// What liquidating the account's position in this market yields: the slot
/// force-closed to empty and the liquidation fee
/// `|base| * mark_price * liquidation_fee_rate / RATE_DENOMINATOR`, scaled
/// down to collateral precision, deducted from the collateral balance. Only an
/// account strictly below the maintenance margin is touched, and a fee the
/// collateral cannot cover is refused rather than driving the balance
/// negative.
pub open spec fn liquidate_spec(
    s: Seq<crate::user::Position>,
    collateral: u64,
    locked: bool,
    m: Market,
    obs: PriceObservation,
    now: i64,
) -> Result<(Seq<crate::user::Position>, u64), PerpError> {
    if locked {
        Err(PerpError::ReentrancyGuardActive)
    } else if m.paused {
        Err(PerpError::MarketPaused)
    } else if obs.feed_id@ != m.oracle_price_feed@ {
        Err(PerpError::InvalidOraclePrice)
    } else {
        match oracle_price_spec(obs, now) {
            Err(e) => Err(e),
            Ok(oracle_price) => {
                if !total_notional_ok(s, m.market_index, oracle_price) {
                    Err(PerpError::MathOverflow)
                } else if !liquidatable_spec(
                    collateral,
                    total_notional_spec(s, m.market_index, oracle_price),
                    m.maintenance_margin_ratio,
                ) {
                    Err(PerpError::PositionNotLiquidatable)
                } else {
                    let i = choose|i: int| is_first_live_slot(s, m.market_index, i);
                    let p = s[i];
                    match mark_price_result_spec(
                        m.amm_base_asset_reserve,
                        m.amm_quote_asset_reserve,
                    ) {
                        Err(e) => Err(e),
                        Ok(mark_price) => {
                            if abs(p.base_asset_amount as int) * mark_price > u128::MAX {
                                Err(PerpError::MathOverflow)
                            } else {
                                let notional = abs(p.base_asset_amount as int) * mark_price
                                    / PRECISION as int;
                                if notional * m.liquidation_fee_rate > u128::MAX {
                                    Err(PerpError::MathOverflow)
                                } else {
                                    let fee = notional * m.liquidation_fee_rate
                                        / RATE_DENOMINATOR as int / PRECISION_RATIO as int;
                                    if fee > u64::MAX {
                                        Err(PerpError::MathOverflow)
                                    } else if fee > collateral {
                                        Err(PerpError::InsufficientCollateral)
                                    } else {
                                        Ok(
                                            (
                                                s.update(
                                                    i,
                                                    empty_position_spec(p.market_index),
                                                ),
                                                (collateral - fee) as u64,
                                            ),
                                        )
                                    }
                                }
                            }
                        },
                    }
                }
            },
        }
    }
}

/// Force-closes the account's position in `market` when its margin ratio has
/// fallen strictly below the maintenance threshold, deducting the liquidation
/// fee from collateral. The whole operation commits only if every step
/// succeeds; on any failure the account is left exactly as it was.
pub fn handle_liquidate(
    user: &mut User,
    market: &Market,
    obs: &PriceObservation,
    now: i64,
) -> (r: Result<(), PerpError>)
    requires
        old(user).wf(),
    ensures
        final(user).wf(),
        final(user).operation_lock == old(user).operation_lock,
        liquidate_spec(
            old(user).positions@,
            old(user).collateral,
            old(user).operation_lock,
            *market,
            *obs,
            now,
        ) matches Ok(t) ==> r == Ok::<(), PerpError>(()) && final(user).positions@ == t.0
            && final(user).collateral == t.1,
        liquidate_spec(
            old(user).positions@,
            old(user).collateral,
            old(user).operation_lock,
            *market,
            *obs,
            now,
        ) matches Err(e) ==> r == Err::<(), PerpError>(e)
            && final(user).positions@ == old(user).positions@
            && final(user).collateral == old(user).collateral,
{
    if user.operation_lock {
        return Err(PerpError::ReentrancyGuardActive);
    }
    if market.paused {
        return Err(PerpError::MarketPaused);
    }
    if !feed_ids_match(&obs.feed_id, &market.oracle_price_feed) {
        return Err(PerpError::InvalidOraclePrice);
    }
    let oracle_price = match validate_oracle_price(obs, now) {
        Ok(px) => px,
        Err(e) => {
            return Err(e);
        },
    };

    match is_liquidatable(user, market, oracle_price) {
        Err(e) => {
            return Err(e);
        },
        Ok(false) => {
            return Err(PerpError::PositionNotLiquidatable);
        },
        Ok(true) => {},
    }

    let slot = match user.find_position_mut(market.market_index) {
        Ok(i) => i,
        Err(e) => {
            proof {
                lemma_positive_notional_has_live_position(
                    user.positions@,
                    market.market_index,
                    oracle_price,
                );
            }
            return Err(e);
        },
    };
    proof {
        let s0 = user.positions@;
        let c = choose|i: int| is_first_live_slot(s0, market.market_index, i);
        assert(is_first_live_slot(s0, market.market_index, slot as int));
        assert(is_first_live_slot(s0, market.market_index, c));
        lemma_first_live_slot_unique(s0, market.market_index, c, slot as int);
    }

    let p = user.positions[slot];
    let mark_price = match market.get_mark_price() {
        Ok(mp) => mp,
        Err(e) => {
            return Err(e);
        },
    };
    let magnitude = i128_magnitude(p.base_asset_amount);
    let valuation = match magnitude.checked_mul(mark_price) {
        Some(v) => v,
        None => {
            return Err(PerpError::MathOverflow);
        },
    };
    let notional = valuation / PRECISION;
    let scaled_fee = match notional.checked_mul(market.liquidation_fee_rate as u128) {
        Some(v) => v,
        None => {
            return Err(PerpError::MathOverflow);
        },
    };
    let fee = scaled_fee / RATE_DENOMINATOR / PRECISION_RATIO;
    if fee > u64::MAX as u128 {
        return Err(PerpError::MathOverflow);
    }
    let fee64 = fee as u64;
    if fee64 > user.collateral {
        return Err(PerpError::InsufficientCollateral);
    }

    user.collateral = user.collateral - fee64;
    let emptied = empty_position(p.market_index);
    user.positions.set(slot, emptied);
    Ok(())
}

} // verus!
