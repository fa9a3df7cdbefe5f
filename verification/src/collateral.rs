use vstd::prelude::*;

use crate::error::PerpError;
use crate::margin::{
    meets_initial_margin_requirement, meets_initial_margin_spec, total_notional_ok,
    total_notional_spec,
};
use crate::market::Market;
use crate::user::User;
use crate::validation::{
    feed_ids_match, oracle_price_spec, validate_oracle_price, PriceObservation,
};

verus! {

/// What a deposit yields: the collateral balance grown by `amount`. A zero
/// amount and a locked account are refused, as is a balance that would no
/// longer fit.
pub open spec fn deposit_spec(collateral: u64, locked: bool, amount: u64) -> Result<
    u64,
    PerpError,
> {
    if amount == 0 {
        Err(PerpError::InvalidAmount)
    } else if locked {
        Err(PerpError::ReentrancyGuardActive)
    } else if collateral + amount > u64::MAX {
        Err(PerpError::MathOverflow)
    } else {
        Ok((collateral + amount) as u64)
    }
}

/// Credits a confirmed collateral deposit to the account's internal balance.
/// The custody rail has already moved the funds when this is called.
pub fn handle_deposit_collateral(user: &mut User, amount: u64) -> (r: Result<(), PerpError>)
    ensures
        final(user).positions@ == old(user).positions@,
        final(user).operation_lock == old(user).operation_lock,
        deposit_spec(old(user).collateral, old(user).operation_lock, amount) matches Ok(c) ==> r
            == Ok::<(), PerpError>(()) && final(user).collateral == c,
        deposit_spec(old(user).collateral, old(user).operation_lock, amount) matches Err(e) ==> r
            == Err::<(), PerpError>(e) && final(user).collateral == old(user).collateral,
{
    if amount == 0 {
        return Err(PerpError::InvalidAmount);
    }
    if user.operation_lock {
        return Err(PerpError::ReentrancyGuardActive);
    }
    match user.collateral.checked_add(amount) {
        Some(c) => {
            user.collateral = c;
            Ok(())
        },
        None => Err(PerpError::MathOverflow),
    }
}

/// What a withdrawal yields: the collateral balance shrunk by `amount`,
/// approved only if the account still meets the initial margin requirement
/// with the reduced balance. The balance itself is never driven negative.
pub open spec fn withdraw_spec(
    s: Seq<crate::user::Position>,
    collateral: u64,
    locked: bool,
    m: Market,
    amount: u64,
    obs: PriceObservation,
    now: i64,
) -> Result<u64, PerpError> {
    if amount == 0 {
        Err(PerpError::InvalidAmount)
    } else if locked {
        Err(PerpError::ReentrancyGuardActive)
    } else if collateral < amount {
        Err(PerpError::InsufficientCollateral)
    } else if obs.feed_id@ != m.oracle_price_feed@ {
        Err(PerpError::InvalidOraclePrice)
    } else {
        match oracle_price_spec(obs, now) {
            Err(e) => Err(e),
            Ok(oracle_price) => {
                if !total_notional_ok(s, m.market_index, oracle_price) {
                    Err(PerpError::MathOverflow)
                } else if !meets_initial_margin_spec(
                    (collateral - amount) as u64,
                    total_notional_spec(s, m.market_index, oracle_price),
                    m.initial_margin_ratio,
                ) {
                    Err(PerpError::WithdrawalCausesMarginCall)
                } else {
                    Ok((collateral - amount) as u64)
                }
            },
        }
    }
}

/// Approves a collateral withdrawal: the internal balance decreases only
/// after the margin check passes on the reduced balance, so the custody rail
/// may move the funds afterwards. On any failure the account is left exactly
/// as it was.
pub fn handle_withdraw_collateral(
    user: &mut User,
    market: &Market,
    amount: u64,
    obs: &PriceObservation,
    now: i64,
) -> (r: Result<(), PerpError>)
    requires
        old(user).wf(),
    ensures
        final(user).wf(),
        final(user).positions@ == old(user).positions@,
        final(user).operation_lock == old(user).operation_lock,
        withdraw_spec(
            old(user).positions@,
            old(user).collateral,
            old(user).operation_lock,
            *market,
            amount,
            *obs,
            now,
        ) matches Ok(c) ==> r == Ok::<(), PerpError>(()) && final(user).collateral == c,
        withdraw_spec(
            old(user).positions@,
            old(user).collateral,
            old(user).operation_lock,
            *market,
            amount,
            *obs,
            now,
        ) matches Err(e) ==> r == Err::<(), PerpError>(e) && final(user).collateral == old(
            user,
        ).collateral,
{
    if amount == 0 {
        return Err(PerpError::InvalidAmount);
    }
    if user.operation_lock {
        return Err(PerpError::ReentrancyGuardActive);
    }
    if user.collateral < amount {
        return Err(PerpError::InsufficientCollateral);
    }
    if !feed_ids_match(&obs.feed_id, &market.oracle_price_feed) {
        return Err(PerpError::InvalidOraclePrice);
    }
    let oracle_price = match validate_oracle_price(obs, now) {
        Ok(px) => px,
        Err(e) => {
            return Err(e);
        },
    };

    let saved = user.collateral;
    user.collateral = saved - amount;
    match meets_initial_margin_requirement(user, market, oracle_price) {
        Err(e) => {
            user.collateral = saved;
            Err(e)
        },
        Ok(false) => {
            user.collateral = saved;
            Err(PerpError::WithdrawalCausesMarginCall)
        },
        Ok(true) => Ok(()),
    }
}

} // verus!
