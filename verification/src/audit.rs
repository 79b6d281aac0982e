//! The audit record: one comma-separated row per cycle.
//!
//! The file itself is appended by the caller; this module fixes the header
//! and the exact content of each row, so every decision and outcome leaves
//! a reproducible trail.

use vstd::prelude::*;
use crate::engine::{spec_rationale_text, Decision};
use crate::executor::{spec_action_label_text, spec_quote_source_text, ExecutionReceipt};
use crate::market::MarketState;
use crate::numtext::{fixed_dec, spec_fixed_dec, spec_u64_dec, u64_to_dec};
use crate::text::{sanitize_csv_field, spec_csv_sanitized};
use crate::trace::{proof_token_text, spec_proof_token_text, spec_tx_id_text, tx_id_text};

verus! {

/// The header row written once when the log is created.
pub fn audit_header() -> (r: String)
    ensures
        r@ == "ts_ms,slot,source,price,hf,action,sold_sol,repaid_usdc,quote_source,tx_id,proof,reason"@,
{
    "ts_ms,slot,source,price,hf,action,sold_sol,repaid_usdc,quote_source,tx_id,proof,reason".to_owned()
}

/// One audit row: timestamp, sequence number, provenance, price, health
/// factor, action label, sold and repaid amounts, quote provenance,
/// transaction identifier, proof token, and the comma-sanitized rationale.
pub open spec fn spec_audit_row(
    market: MarketState,
    decision: Decision,
    receipt: ExecutionReceipt,
) -> Seq<char> {
    spec_u64_dec(market.ts_ms as nat) + ","@ + spec_u64_dec(decision.slot as nat) + ","@
        + market.source@ + ","@ + spec_fixed_dec(decision.price_micro_usdc as int, 6) + ","@
        + spec_fixed_dec(decision.health_factor_bps as int, 4) + ","@ + spec_action_label_text(
        receipt.action,
    ) + ","@ + spec_fixed_dec(receipt.sold_lamports as int, 9) + ","@ + spec_fixed_dec(
        receipt.repaid_micro_usdc as int,
        6,
    ) + ","@ + spec_quote_source_text(receipt.quote_source) + ","@ + spec_tx_id_text(
        receipt.tx_id,
    ) + ","@ + spec_proof_token_text(decision.proof_token) + ","@ + spec_csv_sanitized(
        spec_rationale_text(decision),
    )
}

/// Renders the audit row for one finished cycle.
pub fn audit_row(market: &MarketState, decision: &Decision, receipt: &ExecutionReceipt) -> (r:
    String)
    ensures
        r@ == spec_audit_row(*market, *decision, *receipt),
{
    let mut out = u64_to_dec(market.ts_ms);
    out.append(",");
    out.append(u64_to_dec(decision.slot).as_str());
    out.append(",");
    out.append(market.source.as_str());
    out.append(",");
    out.append(fixed_dec(decision.price_micro_usdc, 6).as_str());
    out.append(",");
    out.append(fixed_dec(decision.health_factor_bps, 4).as_str());
    out.append(",");
    out.append(receipt.action.text().as_str());
    out.append(",");
    out.append(fixed_dec(receipt.sold_lamports, 9).as_str());
    out.append(",");
    out.append(fixed_dec(receipt.repaid_micro_usdc, 6).as_str());
    out.append(",");
    out.append(receipt.quote_source.text().as_str());
    out.append(",");
    out.append(tx_id_text(&receipt.tx_id).as_str());
    out.append(",");
    out.append(proof_token_text(decision.proof_token).as_str());
    out.append(",");
    out.append(sanitize_csv_field(decision.rationale_text().as_str()).as_str());
    out
}

} // verus!
