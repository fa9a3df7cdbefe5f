//! Accounting and pricing core of a perpetual-futures exchange: a virtual
//! constant-product market maker, a margin and liquidation engine, and a
//! periodic funding-rate mechanism. Every quantity is fixed-point integer
//! arithmetic; every operation either fully commits or leaves its inputs
//! untouched.

pub mod amm;
pub mod collateral;
pub mod constants;
pub mod error;
pub mod funding;
pub mod liquidation;
pub mod margin;
pub mod market;
pub mod trade;
pub mod user;
pub mod validation;
