//! Fixed-point scales shared across the crate.
//!
//! Collateral is counted in lamports (10^-9 of the base asset), quote-asset
//! amounts and prices in micro units (10^-6), and every ratio — thresholds,
//! fractions, slippage, health factors — in basis points (10^-4).

use vstd::prelude::*;

verus! {

/// Basis points in one whole (1.0 == 10_000 bps).
pub const BPS_SCALE: u64 = 10_000;

/// Lamports in one whole unit of the base (collateral) asset.
pub const LAMPORTS_PER_SOL: u64 = 1_000_000_000;

/// Micro units in one whole unit of the quote (stable) asset.
pub const MICRO_PER_USDC: u64 = 1_000_000;

/// The health factor reported for a position with no debt: 999.0 in basis
/// points, far above any plausible threshold.
pub const HEALTH_FACTOR_SENTINEL_BPS: u64 = 9_990_000;

/// Unwinds of at most this many lamports (10^-6 of the base asset) are
/// treated as too small to improve the health factor.
pub const MIN_SELL_LAMPORTS: u64 = 1_000;

} // verus!
