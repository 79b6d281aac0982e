//! The tracked position and its solvency health.

use vstd::prelude::*;
use vstd::arithmetic::div_mod::{lemma_div_is_ordered, lemma_div_nonincreasing};
use vstd::arithmetic::mul::lemma_mul_upper_bound;
use crate::units::{BPS_SCALE, HEALTH_FACTOR_SENTINEL_BPS, LAMPORTS_PER_SOL};

verus! {

/// The tracked account: collateral in lamports, stable balance and debt in
/// micro units of the quote asset. Amounts are unsigned, so none of them can
/// go negative.
#[derive(Debug, Clone, PartialEq, Eq)]
pub struct Position {
    pub wallet: String,
    pub collateral_lamports: u64,
    pub stable_micro_usdc: u64,
    pub debt_micro_usdc: u64,
}

/// The position's value in micro quote units at the given price: collateral
/// marked at the price, plus the stable balance.
pub open spec fn spec_collateral_value_micro(
    collateral_lamports: u64,
    price_micro_usdc: u64,
    stable_micro_usdc: u64,
) -> int {
    collateral_lamports * price_micro_usdc / (LAMPORTS_PER_SOL as int) + stable_micro_usdc
}

/// The risk-adjusted value: the position's value scaled down by the
/// liquidation threshold.
pub open spec fn spec_risk_adjusted_micro(
    collateral_lamports: u64,
    price_micro_usdc: u64,
    stable_micro_usdc: u64,
    liquidation_threshold_bps: u64,
) -> int {
    spec_collateral_value_micro(collateral_lamports, price_micro_usdc, stable_micro_usdc)
        * liquidation_threshold_bps / (BPS_SCALE as int)
}

/// The health factor in basis points: risk-adjusted value over debt, the
/// sentinel for a debt-free position, saturating at `u64::MAX`.
pub open spec fn spec_health_factor_bps(
    collateral_lamports: u64,
    price_micro_usdc: u64,
    stable_micro_usdc: u64,
    debt_micro_usdc: u64,
    liquidation_threshold_bps: u64,
) -> u64 {
    if debt_micro_usdc == 0 {
        HEALTH_FACTOR_SENTINEL_BPS
    } else {
        let hf = spec_risk_adjusted_micro(
            collateral_lamports,
            price_micro_usdc,
            stable_micro_usdc,
            liquidation_threshold_bps,
        ) * BPS_SCALE / (debt_micro_usdc as int);
        if hf > u64::MAX {
            u64::MAX
        } else {
            hf as u64
        }
    }
}

/// An upper bound on any position value in micro quote units, used to rule
/// out 128-bit overflow: the largest possible marked collateral plus the
/// largest possible stable balance.
pub proof fn lemma_value_micro_bounds(
    collateral_lamports: u64,
    price_micro_usdc: u64,
    stable_micro_usdc: u64,
)
    ensures
        0 <= spec_collateral_value_micro(collateral_lamports, price_micro_usdc, stable_micro_usdc)
            <= u64::MAX * u64::MAX / (LAMPORTS_PER_SOL as int) + u64::MAX,
        collateral_lamports * price_micro_usdc <= u64::MAX * u64::MAX,
{
    lemma_mul_upper_bound(
        collateral_lamports as int,
        u64::MAX as int,
        price_micro_usdc as int,
        u64::MAX as int,
    );
    lemma_div_is_ordered(
        collateral_lamports * price_micro_usdc,
        u64::MAX * u64::MAX,
        LAMPORTS_PER_SOL as int,
    );
}

/// Computes the position value in micro quote units; it fits in a `u128`.
pub(crate) fn collateral_value_micro(
    collateral_lamports: u64,
    price_micro_usdc: u64,
    stable_micro_usdc: u64,
) -> (v: u128)
    ensures
        v == spec_collateral_value_micro(collateral_lamports, price_micro_usdc, stable_micro_usdc),
{
    proof {
        lemma_value_micro_bounds(collateral_lamports, price_micro_usdc, stable_micro_usdc);
        assert(u64::MAX * u64::MAX / (LAMPORTS_PER_SOL as int) + u64::MAX < u128::MAX);
    }
    (collateral_lamports as u128) * (price_micro_usdc as u128) / (LAMPORTS_PER_SOL as u128) + (
    stable_micro_usdc as u128)
}

/// Computes the risk-adjusted value in micro quote units; it fits in a
/// `u128`.
pub(crate) fn risk_adjusted_micro(
    collateral_lamports: u64,
    price_micro_usdc: u64,
    stable_micro_usdc: u64,
    liquidation_threshold_bps: u64,
) -> (v: u128)
    requires
        liquidation_threshold_bps <= BPS_SCALE,
    ensures
        v == spec_risk_adjusted_micro(
            collateral_lamports,
            price_micro_usdc,
            stable_micro_usdc,
            liquidation_threshold_bps,
        ),
        v <= (u64::MAX * u64::MAX / (LAMPORTS_PER_SOL as int) + u64::MAX),
{
    let value = collateral_value_micro(collateral_lamports, price_micro_usdc, stable_micro_usdc);
    proof {
        lemma_value_micro_bounds(collateral_lamports, price_micro_usdc, stable_micro_usdc);
        lemma_mul_upper_bound(
            value as int,
            u64::MAX * u64::MAX / (LAMPORTS_PER_SOL as int) + u64::MAX,
            liquidation_threshold_bps as int,
            BPS_SCALE as int,
        );
        assert((u64::MAX * u64::MAX / (LAMPORTS_PER_SOL as int) + u64::MAX) * BPS_SCALE
            < u128::MAX);
        lemma_div_nonincreasing(value * liquidation_threshold_bps, BPS_SCALE as int);
    }
    value * (liquidation_threshold_bps as u128) / (BPS_SCALE as u128)
}

impl Position {
    /// The health factor of this position at the given price, in basis
    /// points. A position with no debt reports the safe sentinel whatever
    /// the price; otherwise the ratio of risk-adjusted value to debt,
    /// saturating at `u64::MAX`.
    pub fn health_factor_bps(&self, price_micro_usdc: u64, liquidation_threshold_bps: u64) -> (hf:
        u64)
        requires
            liquidation_threshold_bps <= BPS_SCALE,
        ensures
            hf == spec_health_factor_bps(
                self.collateral_lamports,
                price_micro_usdc,
                self.stable_micro_usdc,
                self.debt_micro_usdc,
                liquidation_threshold_bps,
            ),
    {
        if self.debt_micro_usdc == 0 {
            return HEALTH_FACTOR_SENTINEL_BPS;
        }
        let adjusted = risk_adjusted_micro(
            self.collateral_lamports,
            price_micro_usdc,
            self.stable_micro_usdc,
            liquidation_threshold_bps,
        );
        proof {
            lemma_mul_upper_bound(
                adjusted as int,
                u64::MAX * u64::MAX / (LAMPORTS_PER_SOL as int) + u64::MAX,
                BPS_SCALE as int,
                BPS_SCALE as int,
            );
            assert((u64::MAX * u64::MAX / (LAMPORTS_PER_SOL as int) + u64::MAX) * BPS_SCALE
                < u128::MAX);
        }
        let hf_wide = adjusted * (BPS_SCALE as u128) / (self.debt_micro_usdc as u128);
        if hf_wide > u64::MAX as u128 {
            u64::MAX
        } else {
            hf_wide as u64
        }
    }
}

/// Law: a position with no debt is reported safe — the sentinel health
/// factor — regardless of price, balances or threshold.
pub proof fn lemma_zero_debt_is_safe(
    collateral_lamports: u64,
    price_micro_usdc: u64,
    stable_micro_usdc: u64,
    liquidation_threshold_bps: u64,
)
    ensures
        spec_health_factor_bps(
            collateral_lamports,
            price_micro_usdc,
            stable_micro_usdc,
            0,
            liquidation_threshold_bps,
        ) == HEALTH_FACTOR_SENTINEL_BPS,
{
}

} // verus!
