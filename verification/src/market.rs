use vstd::prelude::*;

use crate::constants::{FUNDING_PERIOD, PRECISION};
use crate::error::PerpError;

verus! {

/// One tradable instrument: the virtual pool's reserves, fee and margin
/// parameters, and the published funding state.
#[derive(Clone, Copy, Debug)]
pub struct Market {
    /// Unique index of the market.
    pub market_index: u16,
    /// Whether trading and liquidation are suspended.
    pub paused: bool,
    /// Virtual base-asset reserve, price-precision scale.
    pub amm_base_asset_reserve: u128,
    /// Virtual quote-asset reserve, price-precision scale.
    pub amm_quote_asset_reserve: u128,
    /// Reserve product fixed at creation.
    pub amm_k_constant: u128,
    /// Identity of the reference price feed this market trusts.
    pub oracle_price_feed: [u8; 32],
    /// Fee rate on trades, in millionths.
    pub trade_fee_rate: u64,
    /// Fee rate levied on liquidation, in millionths.
    pub liquidation_fee_rate: u64,
    /// Margin ratio required to increase risk, in millionths.
    pub initial_margin_ratio: u64,
    /// Margin ratio below which a position is liquidatable, in millionths.
    pub maintenance_margin_ratio: u64,
    /// Funding rate published for the current period, price-precision scale.
    pub last_funding_rate: i128,
    /// When the funding rate was last recomputed, in seconds.
    pub last_funding_ts: i64,
    /// Length of one funding period, in seconds.
    pub funding_period: i64,
}

/// The mark price as unbounded math: `quote_reserve * PRECISION / base_reserve`,
/// or zero for a degenerate pool with no base reserve.
pub open spec fn mark_price_spec(base_reserve: u128, quote_reserve: u128) -> int {
    if base_reserve == 0 {
        0
    } else {
        quote_reserve * PRECISION / base_reserve as int
    }
}

/// The mark price as returned to callers: `MathOverflow` when the scaled
/// quote reserve does not fit in 128 bits.
pub open spec fn mark_price_result_spec(base_reserve: u128, quote_reserve: u128) -> Result<
    u128,
    PerpError,
> {
    if base_reserve == 0 {
        Ok(0u128)
    } else if quote_reserve * PRECISION > u128::MAX {
        Err(PerpError::MathOverflow)
    } else {
        Ok((quote_reserve * PRECISION / base_reserve as int) as u128)
    }
}

impl Market {
    /// Structural soundness of a market: a live base reserve, a reserve
    /// product that never exceeds the constant fixed at creation, a strictly
    /// wider initial than maintenance threshold, and a positive funding
    /// period. Established at creation and preserved by every operation.
    pub open spec fn wf(self) -> bool {
        &&& self.amm_base_asset_reserve >= 1
        &&& self.amm_base_asset_reserve * self.amm_quote_asset_reserve <= self.amm_k_constant
        &&& self.initial_margin_ratio > self.maintenance_margin_ratio
        &&& self.funding_period > 0
    }

    /// Computes the mark price of the market from the virtual reserves.
    pub fn get_mark_price(&self) -> (r: Result<u128, PerpError>)
        ensures
            r == mark_price_result_spec(self.amm_base_asset_reserve, self.amm_quote_asset_reserve),
            r matches Ok(p) ==> p == mark_price_spec(
                self.amm_base_asset_reserve,
                self.amm_quote_asset_reserve,
            ),
    {
        if self.amm_base_asset_reserve == 0 {
            return Ok(0);
        }

        match self.amm_quote_asset_reserve.checked_mul(PRECISION) {
            Some(scaled) => Ok(scaled / self.amm_base_asset_reserve),
            None => Err(PerpError::MathOverflow),
        }
    }
}

/// What market creation yields for a given parameter set: the assembled record,
/// or the sanity-check failure. Reserves must be strictly positive, the initial
/// margin threshold strictly above the maintenance threshold, and the reserve
/// product must fit in 128 bits.
pub open spec fn create_market_spec(
    market_index: u16,
    amm_base_asset_reserve: u128,
    amm_quote_asset_reserve: u128,
    trade_fee_rate: u64,
    liquidation_fee_rate: u64,
    initial_margin_ratio: u64,
    maintenance_margin_ratio: u64,
    oracle_price_feed: [u8; 32],
    now: i64,
) -> Result<Market, PerpError> {
    if amm_base_asset_reserve == 0 || amm_quote_asset_reserve == 0 {
        Err(PerpError::InvalidCalculation)
    } else if initial_margin_ratio <= maintenance_margin_ratio {
        Err(PerpError::InvalidCalculation)
    } else if amm_base_asset_reserve * amm_quote_asset_reserve > u128::MAX {
        Err(PerpError::MathOverflow)
    } else {
        Ok(
            Market {
                market_index,
                paused: false,
                amm_base_asset_reserve,
                amm_quote_asset_reserve,
                amm_k_constant: (amm_base_asset_reserve * amm_quote_asset_reserve) as u128,
                oracle_price_feed,
                trade_fee_rate,
                liquidation_fee_rate,
                initial_margin_ratio,
                maintenance_margin_ratio,
                last_funding_rate: 0,
                last_funding_ts: now,
                funding_period: FUNDING_PERIOD,
            },
        )
    }
}

/// Builds a new market after checking its parameters, with the funding clock
/// starting at `now`.
pub fn create_market(
    market_index: u16,
    amm_base_asset_reserve: u128,
    amm_quote_asset_reserve: u128,
    trade_fee_rate: u64,
    liquidation_fee_rate: u64,
    initial_margin_ratio: u64,
    maintenance_margin_ratio: u64,
    oracle_price_feed: [u8; 32],
    now: i64,
) -> (r: Result<Market, PerpError>)
    ensures
        r == create_market_spec(
            market_index,
            amm_base_asset_reserve,
            amm_quote_asset_reserve,
            trade_fee_rate,
            liquidation_fee_rate,
            initial_margin_ratio,
            maintenance_margin_ratio,
            oracle_price_feed,
            now,
        ),
        r matches Ok(m) ==> m.wf(),
{
    if amm_base_asset_reserve == 0 || amm_quote_asset_reserve == 0 {
        return Err(PerpError::InvalidCalculation);
    }
    if initial_margin_ratio <= maintenance_margin_ratio {
        return Err(PerpError::InvalidCalculation);
    }

    let amm_k_constant = match amm_base_asset_reserve.checked_mul(amm_quote_asset_reserve) {
        Some(k) => k,
        None => {
            return Err(PerpError::MathOverflow);
        },
    };

    Ok(
        Market {
            market_index,
            paused: false,
            amm_base_asset_reserve,
            amm_quote_asset_reserve,
            amm_k_constant,
            oracle_price_feed,
            trade_fee_rate,
            liquidation_fee_rate,
            initial_margin_ratio,
            maintenance_margin_ratio,
            last_funding_rate: 0,
            last_funding_ts: now,
            funding_period: FUNDING_PERIOD,
        },
    )
}

} // verus!
