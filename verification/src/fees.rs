//! Priority-fee policy: scale an observed network fee by urgency and clamp
//! it into the configured band.

use vstd::prelude::*;
use crate::text::str_eq;

verus! {

/// The urgency-scaled fee before clamping: doubled in an emergency,
/// multiplied by 6/5 otherwise, saturating at `u64::MAX`.
pub open spec fn spec_scaled_fee(observed: u64, emergency: bool) -> u64 {
    if emergency {
        if 2 * observed > u64::MAX {
            u64::MAX
        } else {
            (2 * observed) as u64
        }
    } else {
        if 6 * observed > u64::MAX {
            (u64::MAX / 5) as u64
        } else {
            (6 * observed / 5) as u64
        }
    }
}

/// `v` clamped into `[floor, ceiling]`, the floor applied first.
pub open spec fn spec_clamped_fee(v: u64, floor: u64, ceiling: u64) -> u64 {
    let raised = if v < floor {
        floor
    } else {
        v
    };
    if raised > ceiling {
        ceiling
    } else {
        raised
    }
}

/// The dynamic priority fee for one observation.
pub open spec fn spec_dynamic_fee(observed: u64, emergency: bool, floor: u64, ceiling: u64) -> u64 {
    spec_clamped_fee(spec_scaled_fee(observed, emergency), floor, ceiling)
}

/// The urgency-scaled, clamped priority fee, with the urgency as a flag.
pub fn priority_fee_for(observed: u64, emergency: bool, floor: u64, ceiling: u64) -> (fee: u64)
    ensures
        fee == spec_dynamic_fee(observed, emergency, floor, ceiling),
{
    let doubled = match observed.checked_mul(2) {
        Some(v) => v,
        None => u64::MAX,
    };
    let sextupled = match observed.checked_mul(6) {
        Some(v) => v,
        None => u64::MAX,
    };
    let scaled = if emergency {
        doubled
    } else {
        sextupled / 5
    };
    let raised = if scaled < floor {
        floor
    } else {
        scaled
    };
    if raised > ceiling {
        ceiling
    } else {
        raised
    }
}

/// The urgency-scaled, clamped priority fee, with the urgency named by the
/// string `"emergency"` (any other text means a warning).
pub fn dynamic_priority_fee(observed: u64, urgency: &str, floor: u64, ceiling: u64) -> (fee: u64)
    ensures
        fee == spec_dynamic_fee(observed, urgency@ == "emergency"@, floor, ceiling),
{
    let emergency = str_eq(urgency, "emergency");
    priority_fee_for(observed, emergency, floor, ceiling)
}

/// Law: with the same observed fee and the same band, the emergency fee is
/// never below the warning fee.
pub proof fn lemma_emergency_fee_dominates(observed: u64, floor: u64, ceiling: u64)
    ensures
        spec_dynamic_fee(observed, true, floor, ceiling) >= spec_dynamic_fee(
            observed,
            false,
            floor,
            ceiling,
        ),
{
    let x = observed as int;
    assert(spec_scaled_fee(observed, true) >= spec_scaled_fee(observed, false)) by {
        if 2 * x > u64::MAX {
            assert(spec_scaled_fee(observed, true) == u64::MAX);
        } else if 6 * x > u64::MAX {
            assert(x > u64::MAX / 6);
            assert(2 * x >= u64::MAX / 5);
        } else {
            assert(6 * x / 5 <= 2 * x) by (nonlinear_arith)
                requires
                    x >= 0,
            ;
        }
    }
}

/// Law: whenever the band is well formed, the dynamic fee lies within it.
pub proof fn lemma_fee_within_band(observed: u64, emergency: bool, floor: u64, ceiling: u64)
    requires
        floor <= ceiling,
    ensures
        floor <= spec_dynamic_fee(observed, emergency, floor, ceiling) <= ceiling,
{
}

} // verus!
