use aegis::audit::{audit_header, audit_row};
use aegis::dashboard::{dashboard_json, DashboardState};
use aegis::engine::{Action, Decision, Rationale};
use aegis::executor::{ActionLabel, ExecutionReceipt, QuoteSource};
use aegis::market::MarketState;
use aegis::position::Position;

fn position() -> Position {
    Position {
        wallet: "w".to_string(),
        collateral_lamports: 1_000_000_000,
        stable_micro_usdc: 0,
        debt_micro_usdc: 0,
    }
}

#[test]
fn boot_snapshot_holds_the_boot_line() {
    let d = DashboardState::new(&position());
    assert_eq!(d.wallet, "w");
    assert_eq!(d.decisions.len(), 1);
    assert_eq!(d.decisions[0], "aegis booted");
    assert!(d.receipts.is_empty());
    assert_eq!(d.last_action, "boot");
}

#[test]
fn histories_evict_oldest_first_at_capacity() {
    let mut d = DashboardState::new(&position());
    d.push_decision("one".to_string(), 2);
    assert_eq!(d.decisions.len(), 2);
    d.push_decision("two".to_string(), 2);
    assert_eq!(d.decisions.len(), 2);
    assert_eq!(d.decisions[0], "one");
    assert_eq!(d.decisions[1], "two");
    d.push_receipt("r1".to_string(), 1);
    d.push_receipt("r2".to_string(), 1);
    assert_eq!(d.receipts.len(), 1);
    assert_eq!(d.receipts[0], "r2");
}

#[test]
fn history_capacity_zero_keeps_nothing() {
    let mut d = DashboardState::new(&position());
    d.push_decision("one".to_string(), 0);
    assert!(d.decisions.is_empty());
}

#[test]
fn snapshot_serializes_to_the_documented_json() {
    let d = DashboardState::new(&position());
    let expected = "{\"wallet\":\"w\",\"slot\":0,\"price\":0.000000,\"health_factor\":0.0000,\"collateral_sol\":1.000000000,\"stable_usdc\":0.000000,\"debt_usdc\":0.000000,\"last_action\":\"boot\",\"last_reason\":\"startup\",\"last_proof\":\"none\",\"last_source\":\"none\",\"decision_log\":[\"aegis booted\"],\"receipt_log\":[]}";
    assert_eq!(dashboard_json(&d), expected);
}

#[test]
fn audit_row_lists_every_field_in_order() {
    let market = MarketState {
        slot: 5,
        price_micro_usdc: 170_000_000,
        observed_priority_fee: 50_000,
        ts_ms: 123,
        source: "test".to_string(),
    };
    let decision = Decision {
        slot: 5,
        health_factor_bps: 9_000,
        price_micro_usdc: 170_000_000,
        rationale: Rationale::AboveDangerThreshold,
        action: Action::Hold,
        proof_token: 255,
    };
    let receipt = ExecutionReceipt {
        slot: 5,
        action: ActionLabel::Hold,
        tx_id: None,
        repaid_micro_usdc: 0,
        sold_lamports: 0,
        health_factor_after_bps: 9_000,
        quote_source: QuoteSource::NoQuote,
    };
    assert_eq!(
        audit_header(),
        "ts_ms,slot,source,price,hf,action,sold_sol,repaid_usdc,quote_source,tx_id,proof,reason"
    );
    assert_eq!(
        audit_row(&market, &decision, &receipt),
        "123,5,test,170.000000,0.9000,hold,0.000000000,0.000000,none,none,proof-0x00000000000000ff,health factor above danger threshold"
    );
}

#[test]
fn audit_row_sanitizes_the_rationale() {
    let market = MarketState {
        slot: 1,
        price_micro_usdc: 170_000_000,
        observed_priority_fee: 50_000,
        ts_ms: 9,
        source: "test".to_string(),
    };
    let decision = Decision {
        slot: 1,
        health_factor_bps: 9_000,
        price_micro_usdc: 170_000_000,
        rationale: Rationale::CooldownActive,
        action: Action::Hold,
        proof_token: 0,
    };
    let receipt = ExecutionReceipt {
        slot: 1,
        action: ActionLabel::Hold,
        tx_id: None,
        repaid_micro_usdc: 0,
        sold_lamports: 0,
        health_factor_after_bps: 9_000,
        quote_source: QuoteSource::NoQuote,
    };
    let row = audit_row(&market, &decision, &receipt);
    // The rationale's own semicolon survives, but a comma never appears
    // inside the final field.
    assert!(row.ends_with("cooldown active; previous unwind recently executed"));
}
