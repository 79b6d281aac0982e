//! Solvency monitoring and automated de-risking for a single leveraged
//! lending position.
//!
//! The crate decides, cycle by cycle, whether a position is at risk of
//! liquidation and, if so, how much collateral to sell to restore a target
//! health factor. All quantities are fixed-point integers:
//!
//! * collateral amounts in lamports (10^-9 of the base asset),
//! * stable balances, debt and prices in micro units of the quote asset
//!   (10^-6),
//! * ratios (thresholds, fractions, slippage) and health factors in basis
//!   points (10^-4).
//!
//! Network and file I/O live outside this crate; callers hand in market
//! observations and venue quotes as plain values and receive decisions and
//! execution receipts back.

pub mod audit;
pub mod clock;
pub mod dashboard;
pub mod engine;
pub mod errors;
pub mod executor;
pub mod fees;
pub mod jsonval;
pub mod market;
pub mod numtext;
pub mod policy;
pub mod position;
pub mod text;
pub mod trace;
pub mod units;
