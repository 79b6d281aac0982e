use aegis::engine::{Action, Rationale, RiskEngine, Urgency};
use aegis::market::MarketState;
use aegis::policy::RiskConfig;
use aegis::position::Position;
use aegis::units::HEALTH_FACTOR_SENTINEL_BPS;

fn market(slot: u64, price_micro_usdc: u64, observed_priority_fee: u64) -> MarketState {
    MarketState {
        slot,
        price_micro_usdc,
        observed_priority_fee,
        ts_ms: 1,
        source: "test".to_string(),
    }
}

#[test]
fn triggers_unwind_when_health_factor_drops() {
    let engine = RiskEngine::new(RiskConfig::default());
    let position = Position {
        wallet: "w1".to_string(),
        collateral_lamports: 10_000_000_000,
        stable_micro_usdc: 100_000_000,
        debt_micro_usdc: 1_800_000_000,
    };

    let market = market(1, 170_000_000, 50_000);

    let decision = engine.decide(&position, &market);
    assert!(matches!(decision.action, Action::PartialUnwind { .. }));
}

#[test]
fn holds_when_health_factor_is_safe() {
    let engine = RiskEngine::new(RiskConfig::default());
    let position = Position {
        wallet: "w2".to_string(),
        collateral_lamports: 20_000_000_000,
        stable_micro_usdc: 500_000_000,
        debt_micro_usdc: 1_500_000_000,
    };

    let market = market(1, 220_000_000, 20_000);

    let decision = engine.decide(&position, &market);
    assert!(matches!(decision.action, Action::Hold));
    assert_eq!(decision.health_factor_bps, 29_400);
    assert!(matches!(decision.rationale, Rationale::AboveDangerThreshold));
}

#[test]
fn proof_is_stable_for_same_inputs() {
    let cfg = RiskConfig::default();
    let action = Action::PartialUnwind {
        sell_lamports: 1_250_000_000,
        target_repay_micro_usdc: 240_000_000,
        priority_fee: 42_000,
    };

    let p1 = aegis::engine::proof_of_thought(7, 10_100, 193_000_000, &action, &cfg);
    let p2 = aegis::engine::proof_of_thought(7, 10_100, 193_000_000, &action, &cfg);
    assert_eq!(p1, p2);
}

#[test]
fn decide_is_deterministic_with_proof_token() {
    let engine = RiskEngine::new(RiskConfig::default());
    let position = Position {
        wallet: "w1".to_string(),
        collateral_lamports: 10_000_000_000,
        stable_micro_usdc: 100_000_000,
        debt_micro_usdc: 1_800_000_000,
    };
    let d1 = engine.decide(&position, &market(1, 170_000_000, 50_000));
    let d2 = engine.decide(&position, &market(1, 170_000_000, 50_000));
    assert_eq!(d1, d2);
    assert_eq!(d1.proof_token, d2.proof_token);
}

#[test]
fn unwind_sizing_matches_the_policy_exactly() {
    let engine = RiskEngine::new(RiskConfig::default());
    let position = Position {
        wallet: "w1".to_string(),
        collateral_lamports: 10_000_000_000,
        stable_micro_usdc: 100_000_000,
        debt_micro_usdc: 1_800_000_000,
    };
    let decision = engine.decide(&position, &market(1, 170_000_000, 50_000));
    assert_eq!(decision.health_factor_bps, 9_000);
    match decision.action {
        Action::PartialUnwind {
            sell_lamports,
            target_repay_micro_usdc,
            priority_fee,
        } => {
            assert_eq!(sell_lamports, 2_982_601_491);
            assert_eq!(target_repay_micro_usdc, 503_999_999);
            assert_eq!(priority_fee, 100_000);
            // Never more than the 35% per-action cap, never more than held.
            assert!(sell_lamports <= 3_500_000_000);
            assert!(sell_lamports <= position.collateral_lamports);
        }
        Action::Hold => panic!("expected a partial unwind"),
    }
    assert!(matches!(
        decision.rationale,
        Rationale::UnwindPlanned {
            urgency: Urgency::Emergency
        }
    ));
}

#[test]
fn cooldown_blocks_unwind_until_it_expires() {
    let mut engine = RiskEngine::new(RiskConfig::default());
    let position = Position {
        wallet: "w1".to_string(),
        collateral_lamports: 10_000_000_000,
        stable_micro_usdc: 100_000_000,
        debt_micro_usdc: 1_800_000_000,
    };

    let first = engine.decide(&position, &market(1, 170_000_000, 50_000));
    assert!(matches!(first.action, Action::PartialUnwind { .. }));
    engine.mark_action_executed(1);

    // Slots 2 and 3 are within the two-slot cooldown of slot 1.
    let blocked = engine.decide(&position, &market(2, 170_000_000, 50_000));
    assert!(matches!(blocked.action, Action::Hold));
    assert!(matches!(blocked.rationale, Rationale::CooldownActive));
    let blocked = engine.decide(&position, &market(3, 170_000_000, 50_000));
    assert!(matches!(blocked.action, Action::Hold));

    // Slot 4 is outside it.
    let free = engine.decide(&position, &market(4, 170_000_000, 50_000));
    assert!(matches!(free.action, Action::PartialUnwind { .. }));
}

#[test]
fn nothing_to_unwind_without_collateral() {
    let engine = RiskEngine::new(RiskConfig::default());
    let position = Position {
        wallet: "w1".to_string(),
        collateral_lamports: 0,
        stable_micro_usdc: 100_000_000,
        debt_micro_usdc: 1_800_000_000,
    };
    let decision = engine.decide(&position, &market(1, 170_000_000, 50_000));
    assert!(matches!(decision.action, Action::Hold));
    assert!(matches!(decision.rationale, Rationale::NothingToUnwind));
}

#[test]
fn zero_debt_reports_the_sentinel_health_factor() {
    let position = Position {
        wallet: "w".to_string(),
        collateral_lamports: 10_000_000_000,
        stable_micro_usdc: 0,
        debt_micro_usdc: 0,
    };
    assert_eq!(
        position.health_factor_bps(170_000_000, 9_000),
        HEALTH_FACTOR_SENTINEL_BPS
    );
    assert_eq!(
        position.health_factor_bps(1, 9_000),
        HEALTH_FACTOR_SENTINEL_BPS
    );
}

#[test]
fn health_factor_matches_the_formula() {
    let position = Position {
        wallet: "w".to_string(),
        collateral_lamports: 10_000_000_000,
        stable_micro_usdc: 100_000_000,
        debt_micro_usdc: 1_800_000_000,
    };
    // ((10 * 170 + 100) * 0.9) / 1800 = 0.9
    assert_eq!(position.health_factor_bps(170_000_000, 9_000), 9_000);
}

#[test]
fn invalid_policy_is_rejected_at_startup() {
    let mut cfg = RiskConfig::default();
    assert!(cfg.validate().is_ok());
    cfg.target_health_factor_bps = 0;
    assert!(cfg.validate().is_err());
    let mut cfg = RiskConfig::default();
    cfg.max_slippage_bps = 10_001;
    assert!(cfg.validate().is_err());
    let mut cfg = RiskConfig::default();
    cfg.fee_floor_microlamports = 300_000;
    assert!(cfg.validate().is_err());
}

#[test]
fn unwind_rationale_spells_out_the_plan() {
    let engine = RiskEngine::new(RiskConfig::default());
    let position = Position {
        wallet: "w1".to_string(),
        collateral_lamports: 10_000_000_000,
        stable_micro_usdc: 100_000_000,
        debt_micro_usdc: 1_800_000_000,
    };
    let decision = engine.decide(&position, &market(1, 170_000_000, 50_000));
    assert_eq!(
        decision.rationale_text(),
        "hf 0.9000 below danger; urgency=emergency; sell 2.982601491 SOL to repay 503.999999 USDC"
    );
}
