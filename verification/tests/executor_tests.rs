use aegis::engine::{Action, Decision, Rationale};
use aegis::errors::AegisError;
use aegis::executor::{execute, ActionLabel, QuoteOutcome, QuoteSource};
use aegis::market::MarketState;
use aegis::position::Position;

fn market(slot: u64, price_micro_usdc: u64) -> MarketState {
    MarketState {
        slot,
        price_micro_usdc,
        observed_priority_fee: 50_000,
        ts_ms: 1,
        source: "test".to_string(),
    }
}

fn position() -> Position {
    Position {
        wallet: "w1".to_string(),
        collateral_lamports: 10_000_000_000,
        stable_micro_usdc: 100_000_000,
        debt_micro_usdc: 1_800_000_000,
    }
}

fn unwind_decision(slot: u64, sell: u64, repay: u64) -> Decision {
    Decision {
        slot,
        health_factor_bps: 9_000,
        price_micro_usdc: 170_000_000,
        rationale: Rationale::UnwindPlanned {
            urgency: aegis::engine::Urgency::Emergency,
        },
        action: Action::PartialUnwind {
            sell_lamports: sell,
            target_repay_micro_usdc: repay,
            priority_fee: 100_000,
        },
        proof_token: 7,
    }
}

#[test]
fn hold_mutates_nothing() {
    let mut p = position();
    let d = Decision {
        slot: 1,
        health_factor_bps: 29_400,
        price_micro_usdc: 220_000_000,
        rationale: Rationale::AboveDangerThreshold,
        action: Action::Hold,
        proof_token: 7,
    };
    let receipt = execute(&mut p, &market(1, 220_000_000), &d, 60, 9_000, QuoteOutcome::Disabled)
        .expect("hold executes");
    assert_eq!(p, position());
    assert_eq!(receipt.action, ActionLabel::Hold);
    assert_eq!(receipt.sold_lamports, 0);
    assert_eq!(receipt.repaid_micro_usdc, 0);
    assert_eq!(receipt.tx_id, None);
    assert_eq!(receipt.quote_source, QuoteSource::NoQuote);
}

#[test]
fn unwind_with_mark_price_model() {
    let mut p = position();
    let d = unwind_decision(1, 2_982_601_491, 503_999_999);
    let receipt = execute(&mut p, &market(1, 170_000_000), &d, 60, 9_000, QuoteOutcome::Disabled)
        .expect("unwind executes");
    assert_eq!(receipt.action, ActionLabel::PartialUnwind);
    assert_eq!(receipt.sold_lamports, 2_982_601_491);
    assert_eq!(receipt.repaid_micro_usdc, 503_999_999);
    assert_eq!(receipt.quote_source, QuoteSource::MarkPrice);
    assert!(receipt.tx_id.is_some());
    assert_eq!(p.collateral_lamports, 7_017_398_509);
    assert_eq!(p.stable_micro_usdc, 100_000_000);
    assert_eq!(p.debt_micro_usdc, 1_296_000_001);
    assert_eq!(receipt.health_factor_after_bps, 8_978);
}

#[test]
fn unwind_with_live_quote_credits_surplus() {
    let mut p = position();
    // The venue pays more than the decided repayment target.
    let d = unwind_decision(1, 2_000_000_000, 300_000_000);
    let receipt = execute(
        &mut p,
        &market(1, 170_000_000),
        &d,
        60,
        9_000,
        QuoteOutcome::Venue {
            proceeds_micro_usdc: 350_000_000,
        },
    )
    .expect("unwind executes");
    assert_eq!(receipt.quote_source, QuoteSource::JupiterUltra);
    // Repaid is capped at the decided target; the surplus accrues to the
    // stable balance.
    assert_eq!(receipt.repaid_micro_usdc, 300_000_000);
    assert_eq!(p.stable_micro_usdc, 150_000_000);
    assert_eq!(p.debt_micro_usdc, 1_500_000_000);
    assert_eq!(p.collateral_lamports, 8_000_000_000);
}

#[test]
fn repayment_never_exceeds_debt() {
    let mut p = position();
    p.debt_micro_usdc = 200_000_000;
    let d = unwind_decision(1, 2_000_000_000, 900_000_000);
    let receipt = execute(
        &mut p,
        &market(1, 170_000_000),
        &d,
        60,
        9_000,
        QuoteOutcome::Venue {
            proceeds_micro_usdc: 500_000_000,
        },
    )
    .expect("unwind executes");
    assert_eq!(receipt.repaid_micro_usdc, 200_000_000);
    assert_eq!(p.debt_micro_usdc, 0);
    // 300 surplus goes to the stable balance.
    assert_eq!(p.stable_micro_usdc, 400_000_000);
}

#[test]
fn selling_more_than_held_is_an_execution_error() {
    let mut p = position();
    let d = unwind_decision(1, 10_000_000_001, 503_999_999);
    let err = execute(&mut p, &market(1, 170_000_000), &d, 60, 9_000, QuoteOutcome::Disabled)
        .expect_err("oversized unwind must fail");
    assert!(matches!(err, AegisError::Execution(_)));
    assert_eq!(p, position());
}

#[test]
fn selling_nothing_is_an_execution_error() {
    let mut p = position();
    let d = unwind_decision(1, 0, 503_999_999);
    let err = execute(&mut p, &market(1, 170_000_000), &d, 60, 9_000, QuoteOutcome::Disabled)
        .expect_err("empty unwind must fail");
    assert!(matches!(err, AegisError::Execution(_)));
    assert_eq!(p, position());
}

#[test]
fn venue_failure_falls_back_to_the_mark_model() {
    let mut p = position();
    let d = unwind_decision(1, 2_982_601_491, 503_999_999);
    let receipt = execute(
        &mut p,
        &market(1, 170_000_000),
        &d,
        60,
        9_000,
        QuoteOutcome::VenueUnavailable,
    )
    .expect("unwind executes");
    assert_eq!(receipt.quote_source, QuoteSource::FallbackMark);
    assert_eq!(receipt.repaid_micro_usdc, 503_999_999);
}

#[test]
fn tx_id_is_stable_for_same_inputs() {
    let t1 = aegis::trace::synthetic_tx_id(5, 2_000_000_000, 300_000_000, 100_000);
    let t2 = aegis::trace::synthetic_tx_id(5, 2_000_000_000, 300_000_000, 100_000);
    assert_eq!(t1, t2);
    let t3 = aegis::trace::synthetic_tx_id(6, 2_000_000_000, 300_000_000, 100_000);
    assert_ne!(t1, t3);
}
