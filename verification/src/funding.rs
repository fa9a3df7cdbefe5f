use vstd::prelude::*;

use crate::constants::{FUNDING_RATE_DIVISOR, PRECISION};
use crate::error::PerpError;
use crate::market::{mark_price_result_spec, Market};
use crate::trade::lemma_first_live_slot_unique;
use crate::user::{has_live_position, i128_magnitude, is_first_live_slot, Position, User};
use crate::validation::{
    feed_ids_match, oracle_price_spec, validate_oracle_price, PriceObservation,
};

verus! {

/// Division truncating toward zero, the rounding of the machine's signed
/// division.
pub open spec fn div_trunc(x: int, d: int) -> int
    recommends
        d > 0,
{
    if x >= 0 {
        x / d
    } else {
        -((-x) / d)
    }
}

/// Whether a full funding period has elapsed since the market last published a
/// rate.
pub open spec fn funding_rate_update_due(m: Market, now: i64) -> bool {
    now - m.last_funding_ts >= m.funding_period
}

/// Whether a full funding period has elapsed since this position last settled.
pub open spec fn position_settlement_due(p: Position, m: Market, now: i64) -> bool {
    now - p.last_settled_funding_ts >= m.funding_period
}

/// The freshly computed funding rate: the mark-over-oracle premium, scaled to
/// price precision and amortized by the fixed divisor, truncating toward zero.
pub open spec fn updated_rate_spec(m: Market, obs: PriceObservation, now: i64) -> Result<
    i128,
    PerpError,
> {
    match oracle_price_spec(obs, now) {
        Err(e) => Err(e),
        Ok(oracle_price) => match mark_price_result_spec(
            m.amm_base_asset_reserve,
            m.amm_quote_asset_reserve,
        ) {
            Err(e) => Err(e),
            Ok(mark_price) => {
                if mark_price > i128::MAX {
                    Err(PerpError::MathOverflow)
                } else if oracle_price > i128::MAX {
                    Err(PerpError::MathOverflow)
                } else {
                    let premium = mark_price - oracle_price;
                    if premium * PRECISION > i128::MAX || premium * PRECISION < i128::MIN {
                        Err(PerpError::MathOverflow)
                    } else {
                        Ok(div_trunc(premium * PRECISION, FUNDING_RATE_DIVISOR as int) as i128)
                    }
                }
            },
        },
    }
}

/// What settling funding for the account's position in this market yields.
/// A call before the position's own period has elapsed is a successful no-op.
/// The published market rate is recomputed only when a full period has elapsed
/// since it was last recomputed, which makes the rate update idempotent within
/// a period. The position then pays `base * rate / PRECISION` out of the
/// collateral balance (a negative payment is a credit).
pub open spec fn settle_funding_spec(
    s: Seq<Position>,
    collateral: u64,
    locked: bool,
    m: Market,
    obs: PriceObservation,
    now: i64,
) -> Result<(Market, Seq<Position>, u64), PerpError> {
    if locked {
        Err(PerpError::ReentrancyGuardActive)
    } else if !has_live_position(s, m.market_index) {
        Err(PerpError::PositionNotFound)
    } else {
        let i = choose|i: int| is_first_live_slot(s, m.market_index, i);
        let p = s[i];
        if obs.feed_id@ != m.oracle_price_feed@ {
            Err(PerpError::InvalidOraclePrice)
        } else if !position_settlement_due(p, m, now) {
            Ok((m, s, collateral))
        } else {
            let rate_result = if funding_rate_update_due(m, now) {
                match updated_rate_spec(m, obs, now) {
                    Err(e) => Err(e),
                    Ok(rate) => Ok(Market { last_funding_rate: rate, last_funding_ts: now, ..m }),
                }
            } else {
                Ok(m)
            };
            match rate_result {
                Err(e) => Err(e),
                Ok(m1) => {
                    let scaled = p.base_asset_amount * m1.last_funding_rate;
                    if scaled > i128::MAX || scaled < i128::MIN {
                        Err(PerpError::MathOverflow)
                    } else {
                        let payment = div_trunc(scaled, PRECISION as int);
                        let new_collateral = collateral - payment;
                        if new_collateral < 0 || new_collateral > u64::MAX {
                            Err(PerpError::MathOverflow)
                        } else {
                            Ok(
                                (
                                    m1,
                                    s.update(i, Position { last_settled_funding_ts: now, ..p }),
                                    new_collateral as u64,
                                ),
                            )
                        }
                    }
                },
            }
        }
    }
}

/// Signed division by a positive divisor, truncating toward zero, without the
/// panics of the bare operator.
fn div_i128_trunc(x: i128, d: i128) -> (r: i128)
    requires
        d > 1,
    ensures
        r == div_trunc(x as int, d as int),
{
    if x >= 0 {
        let q = (x as u128) / (d as u128);
        proof {
            vstd::arithmetic::div_mod::lemma_div_nonincreasing(x as int, d as int);
            vstd::arithmetic::div_mod::lemma_div_pos_is_pos(x as int, d as int);
        }
        q as i128
    } else {
        let magnitude = i128_magnitude(x);
        let q = magnitude / (d as u128);
        proof {
            vstd::arithmetic::div_mod::lemma_div_pos_is_pos(magnitude as int, d as int);
            vstd::arithmetic::div_mod::lemma_div_is_ordered_by_denominator(
                magnitude as int,
                2,
                d as int,
            );
            assert(magnitude as int / 2 <= i128::MAX);
        }
        -(q as i128)
    }
}

/// Settles accrued funding for the account's live position in `market`: lazily
/// refreshes the market's published rate once per funding period, then applies
/// the position's funding payment to the collateral balance. A second call
/// within the same period is a successful no-op. The whole operation commits
/// only if every step succeeds; on any failure the account and the market are
/// left exactly as they were.
pub fn handle_settle_funding(
    user: &mut User,
    market: &mut Market,
    obs: &PriceObservation,
    now: i64,
) -> (r: Result<(), PerpError>)
    requires
        old(user).wf(),
    ensures
        final(user).wf(),
        old(market).wf() ==> final(market).wf(),
        final(user).operation_lock == old(user).operation_lock,
        settle_funding_spec(
            old(user).positions@,
            old(user).collateral,
            old(user).operation_lock,
            *old(market),
            *obs,
            now,
        ) matches Ok(t) ==> r == Ok::<(), PerpError>(()) && *final(market) == t.0
            && final(user).positions@ == t.1 && final(user).collateral == t.2,
        settle_funding_spec(
            old(user).positions@,
            old(user).collateral,
            old(user).operation_lock,
            *old(market),
            *obs,
            now,
        ) matches Err(e) ==> r == Err::<(), PerpError>(e) && *final(market) == *old(market)
            && final(user).positions@ == old(user).positions@
            && final(user).collateral == old(user).collateral,
{
    if user.operation_lock {
        return Err(PerpError::ReentrancyGuardActive);
    }

    let slot = match user.find_position_mut(market.market_index) {
        Ok(i) => i,
        Err(e) => {
            return Err(e);
        },
    };
    proof {
        let s0 = user.positions@;
        let c = choose|i: int| is_first_live_slot(s0, market.market_index, i);
        assert(is_first_live_slot(s0, market.market_index, slot as int));
        assert(is_first_live_slot(s0, market.market_index, c));
        lemma_first_live_slot_unique(s0, market.market_index, c, slot as int);
    }
    let p = user.positions[slot];

    if !feed_ids_match(&obs.feed_id, &market.oracle_price_feed) {
        return Err(PerpError::InvalidOraclePrice);
    }

    if (now as i128) - (p.last_settled_funding_ts as i128) < (market.funding_period as i128) {
        return Ok(());
    }

    let rate_update_due = (now as i128) - (market.last_funding_ts as i128) >= (
    market.funding_period as i128);
    let new_rate: i128 = if rate_update_due {
        let oracle_price = match validate_oracle_price(obs, now) {
            Ok(px) => px,
            Err(e) => {
                return Err(e);
            },
        };
        let mark_price = match market.get_mark_price() {
            Ok(mp) => mp,
            Err(e) => {
                return Err(e);
            },
        };
        if mark_price > i128::MAX as u128 {
            return Err(PerpError::MathOverflow);
        }
        if oracle_price > i128::MAX as u128 {
            return Err(PerpError::MathOverflow);
        }
        let premium = (mark_price as i128) - (oracle_price as i128);
        let scaled_premium = match premium.checked_mul(PRECISION as i128) {
            Some(v) => v,
            None => {
                return Err(PerpError::MathOverflow);
            },
        };
        div_i128_trunc(scaled_premium, FUNDING_RATE_DIVISOR)
    } else {
        market.last_funding_rate
    };

    let scaled = match p.base_asset_amount.checked_mul(new_rate) {
        Some(v) => v,
        None => {
            return Err(PerpError::MathOverflow);
        },
    };
    let payment = div_i128_trunc(scaled, PRECISION as i128);

    let new_collateral: u64 = if payment >= 0 {
        let owed = payment as u128;
        if owed > user.collateral as u128 {
            return Err(PerpError::MathOverflow);
        }
        user.collateral - (owed as u64)
    } else {
        let credit = i128_magnitude(payment);
        if credit > (u64::MAX - user.collateral) as u128 {
            return Err(PerpError::MathOverflow);
        }
        user.collateral + (credit as u64)
    };

    if rate_update_due {
        market.last_funding_rate = new_rate;
        market.last_funding_ts = now;
    }
    user.collateral = new_collateral;
    let mut settled = p;
    settled.last_settled_funding_ts = now;
    user.positions.set(slot, settled);
    Ok(())
}

/// Idempotence of the market rate update: once a settlement has recomputed
/// the published rate at `now1`, a second settlement within the same funding
/// period leaves the rate and its timestamp untouched, whatever positions,
/// balance or observation it runs with.
pub proof fn lemma_funding_rate_updated_at_most_once(
    s1: Seq<Position>,
    collateral1: u64,
    m: Market,
    obs1: PriceObservation,
    now1: i64,
    m1: Market,
    s2: Seq<Position>,
    collateral2: u64,
    obs2: PriceObservation,
    now2: i64,
)
    requires
        settle_funding_spec(s1, collateral1, false, m, obs1, now1) == Ok::<
            (Market, Seq<Position>, u64),
            PerpError,
        >((m1, s2, collateral2)),
        funding_rate_update_due(m, now1),
        m1.last_funding_ts == now1,
        now2 - now1 < m.funding_period,
    ensures
        settle_funding_spec(s2, collateral2, false, m1, obs2, now2) matches Ok(t)
            ==> t.0.last_funding_rate == m1.last_funding_rate && t.0.last_funding_ts
            == m1.last_funding_ts,
{
    assert(m1.funding_period == m.funding_period);
    assert(!funding_rate_update_due(m1, now2));
}

/// A settlement before the market's funding period has elapsed never touches
/// the published rate or its timestamp, whether it is a per-position no-op or
/// a payment at the standing rate.
pub proof fn lemma_settle_keeps_rate_within_period(
    s: Seq<Position>,
    collateral: u64,
    m: Market,
    obs: PriceObservation,
    now: i64,
)
    requires
        !funding_rate_update_due(m, now),
    ensures
        settle_funding_spec(s, collateral, false, m, obs, now) matches Ok(t)
            ==> t.0.last_funding_rate == m.last_funding_rate && t.0.last_funding_ts
            == m.last_funding_ts,
{
}

} // verus!
