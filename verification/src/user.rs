use vstd::math::abs;
use vstd::prelude::*;

use crate::constants::{MAX_POSITIONS, PRECISION, PRECISION_RATIO};
use crate::error::PerpError;

verus! {

/// One account's exposure in one market. A slot with `base_asset_amount == 0`
/// is empty and may be reused for any market.
#[derive(Clone, Copy, Debug, PartialEq, Eq, Structural)]
pub struct Position {
    /// Market this slot is tagged with.
    pub market_index: u16,
    /// Signed base-asset amount: positive is long, negative is short.
    pub base_asset_amount: i128,
    /// Quote-asset cost basis accumulated at entry, price-precision scale.
    pub quote_asset_amount: u128,
    /// Funding rate last applied to this position.
    pub last_cumulative_funding_rate: i128,
    /// When funding was last settled for this position, in seconds.
    pub last_settled_funding_ts: i64,
}

/// An empty slot tagged with `market_index`.
pub open spec fn empty_position_spec(market_index: u16) -> Position {
    Position {
        market_index,
        base_asset_amount: 0,
        quote_asset_amount: 0,
        last_cumulative_funding_rate: 0,
        last_settled_funding_ts: 0,
    }
}

/// Builds an empty slot tagged with `market_index`.
pub fn empty_position(market_index: u16) -> (p: Position)
    ensures
        p == empty_position_spec(market_index),
{
    Position {
        market_index,
        base_asset_amount: 0,
        quote_asset_amount: 0,
        last_cumulative_funding_rate: 0,
        last_settled_funding_ts: 0,
    }
}

/// The absolute value of a signed 128-bit amount, computed without the panic
/// that a bare negation of the smallest value would raise.
pub fn i128_magnitude(x: i128) -> (r: u128)
    ensures
        r == abs(x as int),
{
    if x >= 0 {
        x as u128
    } else {
        let y = -(x + 1);
        (y as u128) + 1
    }
}

/// Value of the position at the mark price minus its entry cost basis, in
/// price-precision units, signed by side.
pub open spec fn unrealized_pnl_spec(p: Position, mark_price: u128) -> int {
    if p.base_asset_amount == 0 {
        0
    } else {
        let current = abs(p.base_asset_amount as int) * mark_price;
        let entry = p.quote_asset_amount * PRECISION;
        if p.base_asset_amount > 0 {
            current - entry
        } else {
            entry - current
        }
    }
}

/// When the unrealized-PnL computation stays inside 128-bit arithmetic: both
/// valuations fit in a `u128` and the signed difference fits in an `i128`
/// (the symmetric range, so the magnitude never exceeds `i128::MAX`).
pub open spec fn unrealized_pnl_ok(p: Position, mark_price: u128) -> bool {
    p.base_asset_amount == 0 || {
        &&& abs(p.base_asset_amount as int) * mark_price <= u128::MAX
        &&& p.quote_asset_amount * PRECISION <= u128::MAX
        &&& -(i128::MAX as int) <= unrealized_pnl_spec(p, mark_price) <= i128::MAX as int
    }
}

impl Position {
    /// A live position in `market_index`: tagged with it and not empty.
    pub open spec fn is_live_in(self, market_index: u16) -> bool {
        self.market_index == market_index && self.base_asset_amount != 0
    }

    /// Calculates the unrealized PnL of the position at `mark_price`.
    pub fn get_unrealized_pnl(&self, mark_price: u128) -> (r: Result<i128, PerpError>)
        ensures
            r matches Ok(v) ==> unrealized_pnl_ok(*self, mark_price) && v == unrealized_pnl_spec(
                *self,
                mark_price,
            ),
            r is Err ==> r == Err::<i128, PerpError>(PerpError::MathOverflow)
                && !unrealized_pnl_ok(*self, mark_price),
    {
        if self.base_asset_amount == 0 {
            return Ok(0);
        }

        let magnitude = i128_magnitude(self.base_asset_amount);
        let current_value = match magnitude.checked_mul(mark_price) {
            Some(v) => v,
            None => {
                return Err(PerpError::MathOverflow);
            },
        };
        let entry_value = match self.quote_asset_amount.checked_mul(PRECISION) {
            Some(v) => v,
            None => {
                return Err(PerpError::MathOverflow);
            },
        };

        let (nonnegative, size) = if self.base_asset_amount > 0 {
            if current_value >= entry_value {
                (true, current_value - entry_value)
            } else {
                (false, entry_value - current_value)
            }
        } else {
            if entry_value >= current_value {
                (true, entry_value - current_value)
            } else {
                (false, current_value - entry_value)
            }
        };

        if size > i128::MAX as u128 {
            return Err(PerpError::MathOverflow);
        }
        if nonnegative {
            Ok(size as i128)
        } else {
            Ok(-(size as i128))
        }
    }
}

/// Some slot is tagged with `market_index`, live or empty.
pub open spec fn has_slot_for_market(s: Seq<Position>, market_index: u16) -> bool {
    exists|k: int| 0 <= k < s.len() && s[k].market_index == market_index
}

/// Some slot is empty and can be claimed.
pub open spec fn has_empty_slot(s: Seq<Position>) -> bool {
    exists|k: int| 0 <= k < s.len() && s[k].base_asset_amount == 0
}

/// Some slot holds a live position in `market_index`.
pub open spec fn has_live_position(s: Seq<Position>, market_index: u16) -> bool {
    exists|k: int| 0 <= k < s.len() && s[k].is_live_in(market_index)
}

/// `i` is the first slot holding a live position in `market_index`.
pub open spec fn is_first_live_slot(s: Seq<Position>, market_index: u16, i: int) -> bool {
    &&& 0 <= i < s.len()
    &&& s[i].is_live_in(market_index)
    &&& forall|k: int| 0 <= k < i ==> !s[k].is_live_in(market_index)
}

/// `i` is the first slot tagged with `market_index`.
pub open spec fn is_first_slot_for_market(s: Seq<Position>, market_index: u16, i: int) -> bool {
    &&& 0 <= i < s.len()
    &&& s[i].market_index == market_index
    &&& forall|k: int| 0 <= k < i ==> s[k].market_index != market_index
}

/// `i` is the first empty slot.
pub open spec fn is_first_empty_slot(s: Seq<Position>, i: int) -> bool {
    &&& 0 <= i < s.len()
    &&& s[i].base_asset_amount == 0
    &&& forall|k: int| 0 <= k < i ==> s[k].base_asset_amount != 0
}

/// What closing the position in `slot` against `quote_returned` quote proceeds
/// yields: the emptied slot and the collateral adjusted by the realized PnL.
/// The PnL is `quote_returned - cost basis` for a long and the negation for a
/// short, in price-precision units; it is converted to collateral precision by
/// integer division (truncating toward zero) before it touches the balance.
pub open spec fn close_slot_spec(
    s: Seq<Position>,
    collateral: u64,
    slot: int,
    quote_returned: u128,
) -> Result<(Seq<Position>, u64), PerpError>
    recommends
        0 <= slot < s.len(),
{
    let p = s[slot];
    if p.base_asset_amount == 0 {
        Err(PerpError::NoPositionToClose)
    } else {
        let pnl = if p.base_asset_amount > 0 {
            quote_returned - p.quote_asset_amount
        } else {
            p.quote_asset_amount - quote_returned
        };
        let delta = if pnl >= 0 {
            pnl / PRECISION_RATIO as int
        } else {
            -((-pnl) / PRECISION_RATIO as int)
        };
        if collateral + delta > u64::MAX || collateral + delta < 0 {
            Err(PerpError::MathOverflow)
        } else {
            Ok((s.update(slot, empty_position_spec(p.market_index)), (collateral + delta) as u64))
        }
    }
}

/// One trading account: its collateral ledger entry, the re-entrancy flag,
/// and a fixed-capacity set of position slots.
pub struct User {
    /// Collateral balance, collateral-precision scale.
    pub collateral: u64,
    /// Whether an operation currently holds this account.
    pub operation_lock: bool,
    /// Fixed-capacity position slots.
    pub positions: Vec<Position>,
}

impl User {
    /// Structural soundness of an account: exactly `MAX_POSITIONS` slots.
    pub open spec fn wf(self) -> bool {
        self.positions@.len() == MAX_POSITIONS
    }

    /// A fresh account: no collateral, unlocked, every slot empty.
    pub fn new() -> (u: User)
        ensures
            u.wf(),
            u.collateral == 0,
            !u.operation_lock,
            forall|k: int| 0 <= k < u.positions@.len() ==> u.positions@[k]
                == empty_position_spec(0),
    {
        let mut positions: Vec<Position> = Vec::new();
        let mut i: usize = 0;
        while i < MAX_POSITIONS
            invariant
                i <= MAX_POSITIONS,
                positions@.len() == i,
                forall|k: int| 0 <= k < i ==> positions@[k] == empty_position_spec(0),
            decreases MAX_POSITIONS - i,
        {
            positions.push(empty_position(0));
            i = i + 1;
        }
        User { collateral: 0, operation_lock: false, positions }
    }

    /// Returns the slot index of the live position in `market_index`; the
    /// caller mutates the slot through the index.
    pub fn find_position_mut(&self, market_index: u16) -> (r: Result<usize, PerpError>)
        ensures
            r matches Ok(i) ==> is_first_live_slot(self.positions@, market_index, i as int),
            r is Err ==> r == Err::<usize, PerpError>(PerpError::PositionNotFound)
                && !has_live_position(self.positions@, market_index),
    {
        let n = self.positions.len();
        let mut i: usize = 0;
        while i < n
            invariant
                n == self.positions@.len(),
                i <= n,
                forall|k: int| 0 <= k < i ==> !self.positions@[k].is_live_in(market_index),
            decreases n - i,
        {
            let p = self.positions[i];
            if p.market_index == market_index && p.base_asset_amount != 0 {
                return Ok(i);
            }
            i = i + 1;
        }
        Err(PerpError::PositionNotFound)
    }

    /// Picks the slot a trade in `market_index` would use, without mutating:
    /// the first slot already tagged with that market, else the first empty
    /// slot. Fails when every slot is occupied by another market's live
    /// position.
    pub fn locate_slot_for_market(&self, market_index: u16) -> (r: Result<usize, PerpError>)
        ensures
            r matches Ok(i) ==> (if has_slot_for_market(self.positions@, market_index) {
                is_first_slot_for_market(self.positions@, market_index, i as int)
            } else {
                is_first_empty_slot(self.positions@, i as int)
            }),
            r is Err ==> r == Err::<usize, PerpError>(PerpError::InvalidMarketIndex)
                && !has_slot_for_market(self.positions@, market_index) && !has_empty_slot(
                self.positions@,
            ),
    {
        let n = self.positions.len();
        let mut i: usize = 0;
        while i < n
            invariant
                n == self.positions@.len(),
                i <= n,
                forall|k: int| 0 <= k < i ==> self.positions@[k].market_index != market_index,
            decreases n - i,
        {
            if self.positions[i].market_index == market_index {
                return Ok(i);
            }
            i = i + 1;
        }

        let mut j: usize = 0;
        while j < n
            invariant
                n == self.positions@.len(),
                j <= n,
                forall|k: int| 0 <= k < n ==> self.positions@[k].market_index != market_index,
                forall|k: int| 0 <= k < j ==> self.positions@[k].base_asset_amount != 0,
            decreases n - j,
        {
            if self.positions[j].base_asset_amount == 0 {
                return Ok(j);
            }
            j = j + 1;
        }

        Err(PerpError::InvalidMarketIndex)
    }

    /// Returns the slot for `market_index`, claiming and tagging the first
    /// empty slot when no slot carries that market yet; the caller mutates the
    /// slot through the index. Fails when every slot is occupied by another
    /// market's live position.
    pub fn find_or_create_position_mut(&mut self, market_index: u16) -> (r: Result<
        usize,
        PerpError,
    >)
        ensures
            final(self).collateral == old(self).collateral,
            final(self).operation_lock == old(self).operation_lock,
            final(self).positions@.len() == old(self).positions@.len(),
            r matches Ok(i) ==> final(self).positions@[i as int].market_index == market_index && (
            if has_slot_for_market(old(self).positions@, market_index) {
                is_first_slot_for_market(old(self).positions@, market_index, i as int)
                    && final(self).positions@ == old(self).positions@
            } else {
                is_first_empty_slot(old(self).positions@, i as int) && final(self).positions@
                    == old(self).positions@.update(
                    i as int,
                    Position { market_index, ..old(self).positions@[i as int] },
                )
            }),
            r is Err ==> r == Err::<usize, PerpError>(PerpError::InvalidMarketIndex)
                && !has_slot_for_market(old(self).positions@, market_index) && !has_empty_slot(
                old(self).positions@,
            ) && final(self).positions@ == old(self).positions@,
    {
        let slot = match self.locate_slot_for_market(market_index) {
            Ok(i) => i,
            Err(e) => {
                return Err(e);
            },
        };
        let mut p = self.positions[slot];
        if p.market_index != market_index {
            p.market_index = market_index;
            self.positions.set(slot, p);
        } else {
            proof {
                assert(self.positions@ =~= old(self).positions@);
                assert(has_slot_for_market(self.positions@, market_index));
            }
        }
        Ok(slot)
    }

    /// Realizes the PnL of the position in `slot` against the quote proceeds
    /// of its unwinding, adjusts the collateral balance, and empties the slot
    /// (the market tag stays).
    pub fn close_position_slot(&mut self, slot: usize, quote_returned: u128) -> (r: Result<
        (),
        PerpError,
    >)
        requires
            slot < old(self).positions@.len(),
        ensures
            final(self).operation_lock == old(self).operation_lock,
            final(self).positions@.len() == old(self).positions@.len(),
            close_slot_spec(old(self).positions@, old(self).collateral, slot as int, quote_returned)
                matches Ok(t) ==> r == Ok::<(), PerpError>(()) && final(self).positions@ == t.0
                && final(self).collateral == t.1,
            close_slot_spec(old(self).positions@, old(self).collateral, slot as int, quote_returned)
                matches Err(e) ==> r == Err::<(), PerpError>(e) && final(self).positions@ == old(
                self,
            ).positions@ && final(self).collateral == old(self).collateral,
    {
        let p = self.positions[slot];
        if p.base_asset_amount == 0 {
            return Err(PerpError::NoPositionToClose);
        }

        let (gain, size) = if p.base_asset_amount > 0 {
            if quote_returned >= p.quote_asset_amount {
                (true, quote_returned - p.quote_asset_amount)
            } else {
                (false, p.quote_asset_amount - quote_returned)
            }
        } else {
            if p.quote_asset_amount >= quote_returned {
                (true, p.quote_asset_amount - quote_returned)
            } else {
                (false, quote_returned - p.quote_asset_amount)
            }
        };

        let delta = size / PRECISION_RATIO;
        let new_collateral = if gain {
            if delta > u64::MAX as u128 {
                return Err(PerpError::MathOverflow);
            }
            match self.collateral.checked_add(delta as u64) {
                Some(c) => c,
                None => {
                    return Err(PerpError::MathOverflow);
                },
            }
        } else {
            if delta > self.collateral as u128 {
                return Err(PerpError::MathOverflow);
            }
            self.collateral - (delta as u64)
        };

        self.collateral = new_collateral;
        let emptied = empty_position(p.market_index);
        self.positions.set(slot, emptied);
        proof {
            assert(self.positions@ =~= old(self).positions@.update(
                slot as int,
                empty_position_spec(p.market_index),
            ));
        }
        Ok(())
    }
}

} // verus!
