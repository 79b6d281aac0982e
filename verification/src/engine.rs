//! The risk engine: a pure decision function from position, market
//! observation and policy state to an action, with a cooldown carried
//! between cycles.

use vstd::prelude::*;
use vstd::arithmetic::div_mod::{
    lemma_div_is_ordered, lemma_div_multiples_vanish, lemma_fundamental_div_mod,
};
use vstd::arithmetic::mul::{lemma_mul_inequality, lemma_mul_upper_bound};
use crate::fees::{priority_fee_for, spec_dynamic_fee};
use crate::market::MarketState;
use crate::policy::RiskConfig;
use crate::position::{
    risk_adjusted_micro, spec_health_factor_bps, spec_risk_adjusted_micro, Position,
};
use crate::trace::{mix, spec_mix, FP_OFFSET};
use crate::units::{BPS_SCALE, LAMPORTS_PER_SOL, MIN_SELL_LAMPORTS};

verus! {

/// How urgent an unwind is: `Emergency` below the emergency health-factor
/// threshold, `Warning` otherwise.
#[derive(Debug, Clone, Copy, PartialEq, Eq, Structural)]
pub enum Urgency {
    Warning,
    Emergency,
}

/// What one evaluation decided to do.
#[derive(Debug, Clone, Copy, PartialEq, Eq, Structural)]
pub enum Action {
    Hold,
    PartialUnwind { sell_lamports: u64, target_repay_micro_usdc: u64, priority_fee: u64 },
}

/// Why the engine decided as it did.
#[derive(Debug, Clone, Copy, PartialEq, Eq, Structural)]
pub enum Rationale {
    /// The health factor sits at or above the danger threshold.
    AboveDangerThreshold,
    /// A previous unwind executed within the cooldown window.
    CooldownActive,
    /// There is no collateral or no debt to unwind.
    NothingToUnwind,
    /// The clamped sell amount is too small to improve the health factor.
    InsufficientDelta,
    /// A partial unwind was planned with the given urgency.
    UnwindPlanned { urgency: Urgency },
}

/// The output of one evaluation: the inputs the engine read, the action it
/// chose, why, and a deterministic proof token over all numeric inputs.
#[derive(Debug, Clone, Copy, PartialEq, Eq, Structural)]
pub struct Decision {
    pub slot: u64,
    pub health_factor_bps: u64,
    pub price_micro_usdc: u64,
    pub rationale: Rationale,
    pub action: Action,
    pub proof_token: u64,
}

/// The proof token: a deterministic fold over the sequence number, the
/// computed health factor, the price, the four policy thresholds used in
/// sizing, and the action's numeric fields.
pub open spec fn spec_proof_token(
    slot: u64,
    health_factor_bps: u64,
    price_micro_usdc: u64,
    action: Action,
    cfg: RiskConfig,
) -> u64 {
    let h = spec_mix(
        spec_mix(
            spec_mix(
                spec_mix(
                    spec_mix(
                        spec_mix(spec_mix(FP_OFFSET, slot), health_factor_bps),
                        price_micro_usdc,
                    ),
                    cfg.danger_health_factor_bps,
                ),
                cfg.target_health_factor_bps,
            ),
            cfg.emergency_health_factor_bps,
        ),
        cfg.max_unwind_bps,
    );
    match action {
        Action::Hold => spec_mix(h, 0),
        Action::PartialUnwind { sell_lamports, target_repay_micro_usdc, priority_fee } => spec_mix(
            spec_mix(spec_mix(spec_mix(h, 1), sell_lamports), target_repay_micro_usdc),
            priority_fee,
        ),
    }
}

/// Computes the proof token of one evaluation.
pub fn proof_of_thought(
    slot: u64,
    health_factor_bps: u64,
    price_micro_usdc: u64,
    action: &Action,
    cfg: &RiskConfig,
) -> (token: u64)
    ensures
        token == spec_proof_token(slot, health_factor_bps, price_micro_usdc, *action, *cfg),
{
    let h = mix(FP_OFFSET, slot);
    let h = mix(h, health_factor_bps);
    let h = mix(h, price_micro_usdc);
    let h = mix(h, cfg.danger_health_factor_bps);
    let h = mix(h, cfg.target_health_factor_bps);
    let h = mix(h, cfg.emergency_health_factor_bps);
    let h = mix(h, cfg.max_unwind_bps);
    match action {
        Action::Hold => mix(h, 0),
        Action::PartialUnwind { sell_lamports, target_repay_micro_usdc, priority_fee } => {
            let h = mix(h, 1);
            let h = mix(h, *sell_lamports);
            let h = mix(h, *target_repay_micro_usdc);
            mix(h, *priority_fee)
        },
    }
}

/// Law: the proof token is a function of its inputs alone — two evaluations
/// with identical inputs produce an identical token.
pub proof fn lemma_proof_token_deterministic(
    slot1: u64,
    hf1: u64,
    price1: u64,
    action1: Action,
    cfg1: RiskConfig,
    slot2: u64,
    hf2: u64,
    price2: u64,
    action2: Action,
    cfg2: RiskConfig,
)
    requires
        slot1 == slot2,
        hf1 == hf2,
        price1 == price2,
        action1 == action2,
        cfg1 == cfg2,
    ensures
        spec_proof_token(slot1, hf1, price1, action1, cfg1) == spec_proof_token(
            slot2,
            hf2,
            price2,
            action2,
            cfg2,
        ),
{
}

/// The printable form of an urgency.
pub open spec fn spec_urgency_text(u: Urgency) -> Seq<char> {
    match u {
        Urgency::Warning => "warning"@,
        Urgency::Emergency => "emergency"@,
    }
}

impl Urgency {
    /// Renders the urgency as `warning` or `emergency`.
    pub fn text(&self) -> (r: String)
        ensures
            r@ == spec_urgency_text(*self),
    {
        match self {
            Urgency::Warning => "warning".to_owned(),
            Urgency::Emergency => "emergency".to_owned(),
        }
    }
}

/// The human-readable rationale of a decision. A planned unwind spells out
/// the health factor, the urgency and the planned amounts; the hold
/// reasons are fixed phrases.
pub open spec fn spec_rationale_text(d: Decision) -> Seq<char> {
    match d.rationale {
        Rationale::AboveDangerThreshold => "health factor above danger threshold"@,
        Rationale::CooldownActive => "cooldown active; previous unwind recently executed"@,
        Rationale::NothingToUnwind => "no collateral or debt to unwind"@,
        Rationale::InsufficientDelta => "insufficient delta to improve health factor"@,
        Rationale::UnwindPlanned { urgency } => "hf "@ + crate::numtext::spec_fixed_dec(
            d.health_factor_bps as int,
            4,
        ) + " below danger; urgency="@ + spec_urgency_text(urgency) + (match d.action {
            Action::PartialUnwind { sell_lamports, target_repay_micro_usdc, .. } => "; sell "@
                + crate::numtext::spec_fixed_dec(sell_lamports as int, 9)
                + " SOL to repay "@ + crate::numtext::spec_fixed_dec(
                target_repay_micro_usdc as int,
                6,
            ) + " USDC"@,
            Action::Hold => Seq::empty(),
        }),
    }
}

impl Decision {
    /// Renders the rationale for dashboards and the audit log.
    pub fn rationale_text(&self) -> (r: String)
        ensures
            r@ == spec_rationale_text(*self),
    {
        match &self.rationale {
            Rationale::AboveDangerThreshold => "health factor above danger threshold".to_owned(),
            Rationale::CooldownActive => {
                "cooldown active; previous unwind recently executed".to_owned()
            },
            Rationale::NothingToUnwind => "no collateral or debt to unwind".to_owned(),
            Rationale::InsufficientDelta => "insufficient delta to improve health factor".to_owned(),
            Rationale::UnwindPlanned { urgency } => {
                let mut out = "hf ".to_owned();
                out.append(crate::numtext::fixed_dec(self.health_factor_bps, 4).as_str());
                out.append(" below danger; urgency=");
                out.append(urgency.text().as_str());
                match &self.action {
                    Action::PartialUnwind { sell_lamports, target_repay_micro_usdc, .. } => {
                        out.append("; sell ");
                        out.append(crate::numtext::fixed_dec(*sell_lamports, 9).as_str());
                        out.append(" SOL to repay ");
                        out.append(
                            crate::numtext::fixed_dec(*target_repay_micro_usdc, 6).as_str(),
                        );
                        out.append(" USDC");
                    },
                    Action::Hold => {
                    },
                }
                out
            },
        }
    }
}

/// Whether `slot` falls within the cooldown window after the last executed
/// unwind. With no unwind executed yet there is no cooldown.
pub open spec fn spec_in_cooldown(last_action_slot: Option<u64>, cooldown_slots: u64, slot: u64) -> bool {
    match last_action_slot {
        Option::Some(last) => (if slot >= last {
            slot - last
        } else {
            0
        }) <= cooldown_slots,
        Option::None => false,
    }
}

/// The price after haircutting the allowed slippage, in micro quote units
/// per whole collateral unit.
pub open spec fn spec_effective_price_micro(price_micro_usdc: u64, max_slippage_bps: u64) -> u64
    recommends
        max_slippage_bps <= BPS_SCALE,
{
    (price_micro_usdc * (BPS_SCALE - max_slippage_bps) / (BPS_SCALE as int)) as u64
}

/// The debt level that would restore the target health factor exactly.
pub open spec fn spec_desired_debt_micro(
    collateral_lamports: u64,
    price_micro_usdc: u64,
    stable_micro_usdc: u64,
    liquidation_threshold_bps: u64,
    target_health_factor_bps: u64,
) -> int {
    spec_risk_adjusted_micro(
        collateral_lamports,
        price_micro_usdc,
        stable_micro_usdc,
        liquidation_threshold_bps,
    ) * BPS_SCALE / (target_health_factor_bps as int)
}

/// How much debt must be repaid to come back to the target health factor:
/// the excess of the debt over the desired debt, never negative.
pub open spec fn spec_target_repay_micro(position: Position, price_micro_usdc: u64, cfg: RiskConfig) -> u64 {
    let desired = spec_desired_debt_micro(
        position.collateral_lamports,
        price_micro_usdc,
        position.stable_micro_usdc,
        cfg.liquidation_threshold_bps,
        cfg.target_health_factor_bps,
    );
    if position.debt_micro_usdc <= desired {
        0
    } else {
        (position.debt_micro_usdc - desired) as u64
    }
}

/// The largest sell allowed by the per-action unwind fraction.
pub open spec fn spec_max_sell_lamports(collateral_lamports: u64, max_unwind_bps: u64) -> u64
    recommends
        max_unwind_bps <= BPS_SCALE,
{
    (collateral_lamports * max_unwind_bps / (BPS_SCALE as int)) as u64
}

/// The sell amount that would raise exactly the target repayment at the
/// effective price; zero when the effective price is zero.
pub open spec fn spec_raw_sell_lamports(target_repay_micro: u64, effective_price_micro: u64) -> int {
    if effective_price_micro == 0 {
        0
    } else {
        target_repay_micro * LAMPORTS_PER_SOL / (effective_price_micro as int)
    }
}

/// The decided sell amount: the raw sell clamped to the unwind fraction and
/// to the collateral actually held.
pub open spec fn spec_sell_lamports(position: Position, price_micro_usdc: u64, cfg: RiskConfig) -> u64 {
    let raw = spec_raw_sell_lamports(
        spec_target_repay_micro(position, price_micro_usdc, cfg),
        spec_effective_price_micro(price_micro_usdc, cfg.max_slippage_bps),
    );
    let fraction_cap = spec_max_sell_lamports(position.collateral_lamports, cfg.max_unwind_bps);
    let cap = if fraction_cap <= position.collateral_lamports {
        fraction_cap
    } else {
        position.collateral_lamports
    };
    if raw <= cap {
        raw as u64
    } else {
        cap
    }
}

/// The repayment actually targeted by a sell: the sell amount marked at the
/// effective price.
pub open spec fn spec_planned_repay_micro(sell_lamports: u64, effective_price_micro: u64) -> int {
    sell_lamports * effective_price_micro / (LAMPORTS_PER_SOL as int)
}

/// A hold decision with its proof token.
pub open spec fn spec_hold_decision(
    cfg: RiskConfig,
    slot: u64,
    health_factor_bps: u64,
    price_micro_usdc: u64,
    rationale: Rationale,
) -> Decision {
    Decision {
        slot,
        health_factor_bps,
        price_micro_usdc,
        rationale,
        action: Action::Hold,
        proof_token: spec_proof_token(slot, health_factor_bps, price_micro_usdc, Action::Hold, cfg),
    }
}

/// What `decide` returns, as a function of the policy, the cooldown state,
/// the position and the observation — evaluated in the order the engine
/// checks: danger threshold, cooldown, anything to unwind, sizing.
pub open spec fn spec_decide(
    cfg: RiskConfig,
    last_action_slot: Option<u64>,
    position: Position,
    market: MarketState,
) -> Decision {
    let hf = spec_health_factor_bps(
        position.collateral_lamports,
        market.price_micro_usdc,
        position.stable_micro_usdc,
        position.debt_micro_usdc,
        cfg.liquidation_threshold_bps,
    );
    if hf >= cfg.danger_health_factor_bps {
        spec_hold_decision(
            cfg,
            market.slot,
            hf,
            market.price_micro_usdc,
            Rationale::AboveDangerThreshold,
        )
    } else if spec_in_cooldown(last_action_slot, cfg.cooldown_slots, market.slot) {
        spec_hold_decision(cfg, market.slot, hf, market.price_micro_usdc, Rationale::CooldownActive)
    } else if position.collateral_lamports == 0 || position.debt_micro_usdc == 0 {
        spec_hold_decision(
            cfg,
            market.slot,
            hf,
            market.price_micro_usdc,
            Rationale::NothingToUnwind,
        )
    } else {
        let urgency = if hf < cfg.emergency_health_factor_bps {
            Urgency::Emergency
        } else {
            Urgency::Warning
        };
        let sell = spec_sell_lamports(position, market.price_micro_usdc, cfg);
        if sell <= MIN_SELL_LAMPORTS {
            spec_hold_decision(
                cfg,
                market.slot,
                hf,
                market.price_micro_usdc,
                Rationale::InsufficientDelta,
            )
        } else {
            let repay = spec_planned_repay_micro(
                sell,
                spec_effective_price_micro(market.price_micro_usdc, cfg.max_slippage_bps),
            ) as u64;
            let fee = spec_dynamic_fee(
                market.observed_priority_fee,
                urgency == Urgency::Emergency,
                cfg.fee_floor_microlamports,
                cfg.fee_ceiling_microlamports,
            );
            let action = Action::PartialUnwind {
                sell_lamports: sell,
                target_repay_micro_usdc: repay,
                priority_fee: fee,
            };
            Decision {
                slot: market.slot,
                health_factor_bps: hf,
                price_micro_usdc: market.price_micro_usdc,
                rationale: Rationale::UnwindPlanned { urgency },
                action,
                proof_token: spec_proof_token(
                    market.slot,
                    hf,
                    market.price_micro_usdc,
                    action,
                    cfg,
                ),
            }
        }
    }
}

/// Computes the effective price after slippage; it never exceeds the quoted
/// price.
pub(crate) fn effective_price_micro(price_micro_usdc: u64, max_slippage_bps: u64) -> (r: u64)
    requires
        max_slippage_bps <= BPS_SCALE,
    ensures
        r == spec_effective_price_micro(price_micro_usdc, max_slippage_bps),
        r <= price_micro_usdc,
{
    let keep_bps = BPS_SCALE - max_slippage_bps;
    proof {
        lemma_mul_upper_bound(
            price_micro_usdc as int,
            u64::MAX as int,
            keep_bps as int,
            BPS_SCALE as int,
        );
        assert(u64::MAX * BPS_SCALE < u128::MAX);
        lemma_mul_inequality(keep_bps as int, BPS_SCALE as int, price_micro_usdc as int);
        lemma_div_is_ordered(
            price_micro_usdc * keep_bps,
            price_micro_usdc * BPS_SCALE,
            BPS_SCALE as int,
        );
        lemma_div_multiples_vanish(price_micro_usdc as int, BPS_SCALE as int);
    }
    let wide = (price_micro_usdc as u128) * (keep_bps as u128) / (BPS_SCALE as u128);
    wide as u64
}

/// Computes the unwind-fraction cap on the sell amount; it never exceeds
/// the collateral.
pub(crate) fn max_sell_lamports(collateral_lamports: u64, max_unwind_bps: u64) -> (r: u64)
    requires
        max_unwind_bps <= BPS_SCALE,
    ensures
        r == spec_max_sell_lamports(collateral_lamports, max_unwind_bps),
        r <= collateral_lamports,
{
    proof {
        lemma_mul_upper_bound(
            collateral_lamports as int,
            u64::MAX as int,
            max_unwind_bps as int,
            BPS_SCALE as int,
        );
        assert(u64::MAX * BPS_SCALE < u128::MAX);
        lemma_mul_inequality(max_unwind_bps as int, BPS_SCALE as int, collateral_lamports as int);
        lemma_div_is_ordered(
            collateral_lamports * max_unwind_bps,
            collateral_lamports * BPS_SCALE,
            BPS_SCALE as int,
        );
        lemma_div_multiples_vanish(collateral_lamports as int, BPS_SCALE as int);
    }
    let wide = (collateral_lamports as u128) * (max_unwind_bps as u128) / (BPS_SCALE as u128);
    wide as u64
}

/// The risk engine: the policy plus the only state carried across cycles,
/// the sequence number of the last executed unwind.
#[derive(Debug, Clone)]
pub struct RiskEngine {
    pub cfg: RiskConfig,
    pub last_action_slot: Option<u64>,
}

impl RiskEngine {
    /// A fresh engine with no unwind executed yet.
    pub fn new(cfg: RiskConfig) -> (engine: RiskEngine)
        ensures
            engine.cfg == cfg,
            engine.last_action_slot is None,
    {
        RiskEngine { cfg, last_action_slot: None }
    }

    /// Records that an unwind executed at `slot`, arming the cooldown. The
    /// caller invokes this only after a confirmed execution, so a failed
    /// execution does not falsely arm the cooldown.
    pub fn mark_action_executed(&mut self, slot: u64)
        ensures
            final(self).cfg == old(self).cfg,
            final(self).last_action_slot == Some(slot),
    {
        self.last_action_slot = Some(slot);
    }

    /// Whether `slot` still falls within the cooldown window.
    pub fn in_cooldown(&self, slot: u64) -> (r: bool)
        ensures
            r == spec_in_cooldown(self.last_action_slot, self.cfg.cooldown_slots, slot),
    {
        match self.last_action_slot {
            Some(last) => {
                let gap = if slot >= last {
                    slot - last
                } else {
                    0
                };
                gap <= self.cfg.cooldown_slots
            },
            None => false,
        }
    }

    /// How much debt must be repaid to restore the target health factor.
    pub fn required_repay_micro(&self, position: &Position, price_micro_usdc: u64) -> (r: u64)
        requires
            self.cfg.wf(),
        ensures
            r == spec_target_repay_micro(*position, price_micro_usdc, self.cfg),
    {
        let adjusted = risk_adjusted_micro(
            position.collateral_lamports,
            price_micro_usdc,
            position.stable_micro_usdc,
            self.cfg.liquidation_threshold_bps,
        );
        proof {
            lemma_mul_upper_bound(
                adjusted as int,
                u64::MAX * u64::MAX / (LAMPORTS_PER_SOL as int) + u64::MAX,
                BPS_SCALE as int,
                BPS_SCALE as int,
            );
            assert((u64::MAX * u64::MAX / (LAMPORTS_PER_SOL as int) + u64::MAX) * BPS_SCALE
                < u128::MAX);
        }
        let desired = adjusted * (BPS_SCALE as u128) / (self.cfg.target_health_factor_bps as u128);
        if (position.debt_micro_usdc as u128) <= desired {
            0
        } else {
            (position.debt_micro_usdc as u128 - desired) as u64
        }
    }

    /// A hold decision carrying the proof token of its inputs.
    fn hold_decision(&self, slot: u64, health_factor_bps: u64, price_micro_usdc: u64, rationale: Rationale) -> (d: Decision)
        ensures
            d == spec_hold_decision(self.cfg, slot, health_factor_bps, price_micro_usdc, rationale),
    {
        let token = proof_of_thought(
            slot,
            health_factor_bps,
            price_micro_usdc,
            &Action::Hold,
            &self.cfg,
        );
        Decision {
            slot,
            health_factor_bps,
            price_micro_usdc,
            rationale,
            action: Action::Hold,
            proof_token: token,
        }
    }

    /// Evaluates one market observation against the position.
    ///
    /// The decision — action, rationale and proof token included — is a pure
    /// function of the policy, the cooldown state, the position and the
    /// observation; the engine itself is not mutated.
    pub fn decide(&self, position: &Position, market: &MarketState) -> (d: Decision)
        requires
            self.cfg.wf(),
        ensures
            d == spec_decide(self.cfg, self.last_action_slot, *position, *market),
    {
        let hf = position.health_factor_bps(
            market.price_micro_usdc,
            self.cfg.liquidation_threshold_bps,
        );
        if hf >= self.cfg.danger_health_factor_bps {
            return self.hold_decision(
                market.slot,
                hf,
                market.price_micro_usdc,
                Rationale::AboveDangerThreshold,
            );
        }
        if self.in_cooldown(market.slot) {
            return self.hold_decision(
                market.slot,
                hf,
                market.price_micro_usdc,
                Rationale::CooldownActive,
            );
        }
        if position.collateral_lamports == 0 || position.debt_micro_usdc == 0 {
            return self.hold_decision(
                market.slot,
                hf,
                market.price_micro_usdc,
                Rationale::NothingToUnwind,
            );
        }
        let urgency = if hf < self.cfg.emergency_health_factor_bps {
            Urgency::Emergency
        } else {
            Urgency::Warning
        };
        let target_repay = self.required_repay_micro(position, market.price_micro_usdc);
        let eff_price = effective_price_micro(market.price_micro_usdc, self.cfg.max_slippage_bps);
        let raw_sell_wide: u128 = if eff_price == 0 {
            0
        } else {
            proof {
                lemma_mul_upper_bound(
                    target_repay as int,
                    u64::MAX as int,
                    LAMPORTS_PER_SOL as int,
                    LAMPORTS_PER_SOL as int,
                );
                assert(u64::MAX * LAMPORTS_PER_SOL < u128::MAX);
            }
            (target_repay as u128) * (LAMPORTS_PER_SOL as u128) / (eff_price as u128)
        };
        let fraction_cap = max_sell_lamports(position.collateral_lamports, self.cfg.max_unwind_bps);
        let cap = if fraction_cap <= position.collateral_lamports {
            fraction_cap
        } else {
            position.collateral_lamports
        };
        let sell: u64 = if raw_sell_wide <= cap as u128 {
            raw_sell_wide as u64
        } else {
            cap
        };
        assert(sell == spec_sell_lamports(*position, market.price_micro_usdc, self.cfg));
        if sell <= MIN_SELL_LAMPORTS {
            return self.hold_decision(
                market.slot,
                hf,
                market.price_micro_usdc,
                Rationale::InsufficientDelta,
            );
        }
        proof {
            lemma_planned_repay_fits(sell, target_repay, eff_price);
            lemma_mul_upper_bound(
                sell as int,
                u64::MAX as int,
                eff_price as int,
                u64::MAX as int,
            );
            assert(u64::MAX * u64::MAX < u128::MAX);
        }
        let repay_wide = (sell as u128) * (eff_price as u128) / (LAMPORTS_PER_SOL as u128);
        let repay = repay_wide as u64;
        let fee = priority_fee_for(
            market.observed_priority_fee,
            matches!(urgency, Urgency::Emergency),
            self.cfg.fee_floor_microlamports,
            self.cfg.fee_ceiling_microlamports,
        );
        let action = Action::PartialUnwind {
            sell_lamports: sell,
            target_repay_micro_usdc: repay,
            priority_fee: fee,
        };
        let token = proof_of_thought(market.slot, hf, market.price_micro_usdc, &action, &self.cfg);
        Decision {
            slot: market.slot,
            health_factor_bps: hf,
            price_micro_usdc: market.price_micro_usdc,
            rationale: Rationale::UnwindPlanned { urgency },
            action,
            proof_token: token,
        }
    }
}

/// When the sell amount was clamped below the raw sell, the repayment it
/// raises at the effective price stays at or below the target repayment —
/// in particular it fits in a `u64`.
pub proof fn lemma_planned_repay_fits(sell_lamports: u64, target_repay_micro: u64, effective_price_micro: u64)
    requires
        effective_price_micro > 0 ==> sell_lamports <= spec_raw_sell_lamports(
            target_repay_micro,
            effective_price_micro,
        ),
        effective_price_micro == 0 ==> sell_lamports == 0,
    ensures
        0 <= spec_planned_repay_micro(sell_lamports, effective_price_micro) <= target_repay_micro,
{
    let e = effective_price_micro as int;
    let t = target_repay_micro as int;
    let s = sell_lamports as int;
    let l = LAMPORTS_PER_SOL as int;
    if e == 0 {
        assert(spec_planned_repay_micro(sell_lamports, effective_price_micro) == 0);
    } else {
        let raw = t * l / e;
        // floor(t * l / e) * e <= t * l
        lemma_fundamental_div_mod(t * l, e);
        assert(raw * e <= t * l);
        lemma_mul_inequality(s, raw, e);
        assert(s * e <= t * l);
        lemma_div_is_ordered(s * e, t * l, l);
        lemma_div_multiples_vanish(t, l);
        assert(s * e / l <= t);
        vstd::arithmetic::div_mod::lemma_div_pos_is_pos(s * e, l);
        vstd::arithmetic::mul::lemma_mul_nonnegative(s, e);
    }
}

/// Law: `decide` is deterministic — identical policy, cooldown state,
/// position and observation yield an identical decision, proof token
/// included.
pub proof fn lemma_decide_deterministic(
    cfg1: RiskConfig,
    last1: Option<u64>,
    position1: Position,
    market1: MarketState,
    cfg2: RiskConfig,
    last2: Option<u64>,
    position2: Position,
    market2: MarketState,
)
    requires
        cfg1 == cfg2,
        last1 == last2,
        position1 == position2,
        market1 == market2,
    ensures
        spec_decide(cfg1, last1, position1, market1) == spec_decide(
            cfg2,
            last2,
            position2,
            market2,
        ),
{
}

/// Law: the decided sell amount never exceeds the per-action unwind
/// fraction of the collateral, never exceeds the collateral itself, and a
/// planned unwind always sells a positive amount.
pub proof fn lemma_unwind_sizing_bounded(
    cfg: RiskConfig,
    last_action_slot: Option<u64>,
    position: Position,
    market: MarketState,
)
    requires
        cfg.wf(),
    ensures
        spec_decide(cfg, last_action_slot, position, market).action matches Action::PartialUnwind {
            sell_lamports,
            ..
        } ==> sell_lamports <= spec_max_sell_lamports(
            position.collateral_lamports,
            cfg.max_unwind_bps,
        ) && sell_lamports <= position.collateral_lamports && sell_lamports > 0,
{
    let d = spec_decide(cfg, last_action_slot, position, market);
    if d.action is PartialUnwind {
        let raw = spec_raw_sell_lamports(
            spec_target_repay_micro(position, market.price_micro_usdc, cfg),
            spec_effective_price_micro(market.price_micro_usdc, cfg.max_slippage_bps),
        );
        assert(raw >= 0) by {
            if spec_effective_price_micro(market.price_micro_usdc, cfg.max_slippage_bps) != 0 {
                vstd::arithmetic::div_mod::lemma_div_pos_is_pos(
                    spec_target_repay_micro(position, market.price_micro_usdc, cfg)
                        * LAMPORTS_PER_SOL,
                    spec_effective_price_micro(
                        market.price_micro_usdc,
                        cfg.max_slippage_bps,
                    ) as int,
                );
                vstd::arithmetic::mul::lemma_mul_nonnegative(
                    spec_target_repay_micro(position, market.price_micro_usdc, cfg) as int,
                    LAMPORTS_PER_SOL as int,
                );
            }
        }
    }
}

/// Law: no partial unwind is decided at a sequence number within the
/// cooldown window of the last executed unwind.
pub proof fn lemma_cooldown_blocks_unwind(
    cfg: RiskConfig,
    last_action_slot: Option<u64>,
    position: Position,
    market: MarketState,
)
    requires
        spec_in_cooldown(last_action_slot, cfg.cooldown_slots, market.slot),
    ensures
        spec_decide(cfg, last_action_slot, position, market).action is Hold,
{
}

} // verus!
