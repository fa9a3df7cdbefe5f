use vstd::prelude::*;

verus! {

/// Every failure the exchange core can report. Each error is terminal for the
/// enclosing operation: no partial mutation survives a failed call.
#[derive(Clone, Copy, Debug, PartialEq, Eq, Structural)]
pub enum PerpError {
    /// A computed configuration or price value is not acceptable.
    InvalidCalculation,
    /// A checked arithmetic step overflowed, underflowed or divided invalidly.
    MathOverflow,
    /// The oracle observation is malformed or not trustworthy.
    InvalidOraclePrice,
    /// The oracle observation is older than the staleness threshold.
    StaleOraclePrice,
    /// The trade would execute at a worse price than the caller's limit.
    PriceSlippage,
    /// The requested trade direction is not recognized.
    InvalidTradeDirection,
    /// The market is paused for trading.
    MarketPaused,
    /// No live position exists for the given market.
    PositionNotFound,
    /// The position slot is already empty.
    NoPositionToClose,
    /// The account's margin ratio is at or above the maintenance threshold.
    PositionNotLiquidatable,
    /// The collateral balance cannot cover the requested decrease.
    InsufficientCollateral,
    /// The withdrawal would leave the account below its initial margin.
    WithdrawalCausesMarginCall,
    /// The trade would leave the account below its initial margin.
    PositionCausesMarginCall,
    /// A deposit or withdrawal amount of zero was requested.
    InvalidAmount,
    /// No position slot is available for the given market.
    InvalidMarketIndex,
    /// The virtual pool's reserves cannot support the operation.
    UnhealthyMarketState,
    /// The account is already inside another operation.
    ReentrancyGuardActive,
    /// Funding was already settled for the current period (reserved for a
    /// stricter policy; the settlement path treats an early call as a no-op).
    FundingAlreadySettled,
}

} // verus!
