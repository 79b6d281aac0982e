//! The immutable risk policy: thresholds, sizing limits and the fee band.

use vstd::prelude::*;
use crate::errors::AegisError;
use crate::units::BPS_SCALE;

verus! {

/// The risk thresholds and limits, loaded once at startup.
///
/// Health-factor thresholds and the liquidation threshold are ratios in
/// basis points; the unwind fraction and slippage are basis-point fractions
/// of one; the cooldown is counted in sequence numbers (slots); the fee band
/// is in micro-lamports.
#[derive(Debug, Clone, PartialEq, Eq, Structural)]
pub struct RiskConfig {
    pub danger_health_factor_bps: u64,
    pub target_health_factor_bps: u64,
    pub emergency_health_factor_bps: u64,
    pub liquidation_threshold_bps: u64,
    pub max_unwind_bps: u64,
    pub cooldown_slots: u64,
    pub max_slippage_bps: u64,
    pub fee_floor_microlamports: u64,
    pub fee_ceiling_microlamports: u64,
}

impl RiskConfig {
    /// A well-formed policy: fractions of one stay at or below one, the
    /// target health factor is positive (it divides a value), and the fee
    /// band is ordered.
    pub open spec fn wf(self) -> bool {
        &&& self.liquidation_threshold_bps <= BPS_SCALE
        &&& self.max_unwind_bps <= BPS_SCALE
        &&& self.max_slippage_bps <= BPS_SCALE
        &&& self.target_health_factor_bps > 0
        &&& self.fee_floor_microlamports <= self.fee_ceiling_microlamports
    }

    /// The built-in policy: danger 1.08, target 1.25, emergency 1.02,
    /// liquidation threshold 0.9, at most 35% unwound per action, a
    /// two-slot cooldown, 0.6% slippage and a fee band of 10_000 to
    /// 200_000 micro-lamports.
    pub open spec fn spec_default() -> RiskConfig {
        RiskConfig {
            danger_health_factor_bps: 10_800,
            target_health_factor_bps: 12_500,
            emergency_health_factor_bps: 10_200,
            liquidation_threshold_bps: 9_000,
            max_unwind_bps: 3_500,
            cooldown_slots: 2,
            max_slippage_bps: 60,
            fee_floor_microlamports: 10_000,
            fee_ceiling_microlamports: 200_000,
        }
    }

    /// Checks the policy at startup: `Ok` exactly when it is well formed.
    pub fn validate(&self) -> (r: Result<(), AegisError>)
        ensures
            r is Ok <==> self.wf(),
    {
        if self.liquidation_threshold_bps > BPS_SCALE {
            Err(AegisError::Config("liquidation threshold must not exceed one".to_owned()))
        } else if self.max_unwind_bps > BPS_SCALE {
            Err(AegisError::Config("max unwind fraction must not exceed one".to_owned()))
        } else if self.max_slippage_bps > BPS_SCALE {
            Err(AegisError::Config("max slippage must not exceed one".to_owned()))
        } else if self.target_health_factor_bps == 0 {
            Err(AegisError::Config("target health factor must be positive".to_owned()))
        } else if self.fee_floor_microlamports > self.fee_ceiling_microlamports {
            Err(AegisError::Config("fee floor must not exceed fee ceiling".to_owned()))
        } else {
            Ok(())
        }
    }
}

impl Default for RiskConfig {
    /// The built-in policy; it is well formed.
    fn default() -> (c: RiskConfig)
        ensures
            c == RiskConfig::spec_default(),
            c.wf(),
    {
        RiskConfig {
            danger_health_factor_bps: 10_800,
            target_health_factor_bps: 12_500,
            emergency_health_factor_bps: 10_200,
            liquidation_threshold_bps: 9_000,
            max_unwind_bps: 3_500,
            cooldown_slots: 2,
            max_slippage_bps: 60,
            fee_floor_microlamports: 10_000,
            fee_ceiling_microlamports: 200_000,
        }
    }
}

} // verus!
