//! The dashboard snapshot: the latest cycle's outcome plus two bounded
//! FIFO histories.
//!
//! One instance is shared between the cycle loop (writer) and the dashboard
//! server (reader); the locking itself lives with the caller, this module
//! holds the verified state transitions.

use vstd::prelude::*;
use std::collections::VecDeque;
use crate::market::MarketState;
use crate::numtext::{fixed_dec, spec_fixed_dec, spec_u64_dec, u64_to_dec};
use crate::position::Position;
use crate::text::{escape_json, spec_json_escaped};

verus! {

/// A sequence extended by one entry and then trimmed, oldest first, to the
/// capacity.
pub open spec fn spec_push_bounded<T>(s: Seq<T>, x: T, cap: usize) -> Seq<T> {
    let grown = s.push(x);
    if grown.len() <= cap {
        grown
    } else {
        grown.skip(grown.len() - cap)
    }
}

/// The mutable projection served to the dashboard: the latest position and
/// decision data, and bounded histories of decision and receipt lines.
#[derive(Debug, Clone)]
pub struct DashboardState {
    pub wallet: String,
    pub last_slot: u64,
    pub last_price_micro_usdc: u64,
    pub health_factor_bps: u64,
    pub collateral_lamports: u64,
    pub stable_micro_usdc: u64,
    pub debt_micro_usdc: u64,
    pub last_action: String,
    pub last_reason: String,
    pub last_proof: String,
    pub last_source: String,
    pub decisions: VecDeque<String>,
    pub receipts: VecDeque<String>,
}

/// Trims the front of `q` until at most `cap` entries remain.
fn trim_front(q: &mut VecDeque<String>, cap: usize)
    ensures
        final(q)@ == (if old(q)@.len() <= cap {
            old(q)@
        } else {
            old(q)@.skip(old(q)@.len() - cap)
        }),
{
    proof {
        assert(q@.skip(0) =~= q@);
    }
    while q.len() > cap
        invariant
            q@ == old(q)@.skip(old(q)@.len() - q@.len()),
            q@.len() <= old(q)@.len(),
            old(q)@.len() <= cap ==> q@.len() == old(q)@.len(),
            old(q)@.len() > cap ==> q@.len() >= cap,
        decreases q@.len(),
    {
        let ghost before = q@;
        q.pop_front();
        proof {
            assert(before.subrange(1, before.len() as int) =~= before.skip(1));
            assert(old(q)@.skip(old(q)@.len() - before.len()).skip(1) =~= old(q)@.skip(
                old(q)@.len() - before.len() + 1,
            ));
        }
    }
    proof {
        assert(old(q)@.skip(0) =~= old(q)@);
    }
}

impl DashboardState {
    /// The boot-time snapshot for a position: zeroed market data, boot
    /// markers, and a decision history holding the boot line.
    pub fn new(position: &Position) -> (d: DashboardState)
        ensures
            d.wallet == position.wallet,
            d.last_slot == 0,
            d.last_price_micro_usdc == 0,
            d.health_factor_bps == 0,
            d.collateral_lamports == position.collateral_lamports,
            d.stable_micro_usdc == position.stable_micro_usdc,
            d.debt_micro_usdc == position.debt_micro_usdc,
            d.last_action@ == "boot"@,
            d.last_reason@ == "startup"@,
            d.last_proof@ == "none"@,
            d.last_source@ == "none"@,
            d.decisions@.len() == 1 && d.decisions@[0]@ == "aegis booted"@,
            d.receipts@.len() == 0,
    {
        let mut decisions: VecDeque<String> = VecDeque::new();
        decisions.push_back("aegis booted".to_owned());
        DashboardState {
            wallet: position.wallet.clone(),
            last_slot: 0,
            last_price_micro_usdc: 0,
            health_factor_bps: 0,
            collateral_lamports: position.collateral_lamports,
            stable_micro_usdc: position.stable_micro_usdc,
            debt_micro_usdc: position.debt_micro_usdc,
            last_action: "boot".to_owned(),
            last_reason: "startup".to_owned(),
            last_proof: "none".to_owned(),
            last_source: "none".to_owned(),
            decisions,
            receipts: VecDeque::new(),
        }
    }

    /// Appends a decision line; the history never exceeds `history_len`
    /// entries and evicts oldest-first when it would.
    pub fn push_decision(&mut self, line: String, history_len: usize)
        ensures
            final(self).decisions@ == spec_push_bounded(old(self).decisions@, line, history_len),
            final(self).decisions@.len() <= history_len || history_len == 0,
            *final(self) == (DashboardState { decisions: final(self).decisions, ..*old(self) }),
    {
        self.decisions.push_back(line);
        trim_front(&mut self.decisions, history_len);
    }

    /// Appends a receipt line; the history never exceeds `history_len`
    /// entries and evicts oldest-first when it would.
    pub fn push_receipt(&mut self, line: String, history_len: usize)
        ensures
            final(self).receipts@ == spec_push_bounded(old(self).receipts@, line, history_len),
            final(self).receipts@.len() <= history_len || history_len == 0,
            *final(self) == (DashboardState { receipts: final(self).receipts, ..*old(self) }),
    {
        self.receipts.push_back(line);
        trim_front(&mut self.receipts, history_len);
    }

    /// Records one finished cycle: the observation, the mutated position,
    /// the resulting health factor, the latest labels, and one new line in
    /// each history.
    pub fn record_cycle(
        &mut self,
        market: &MarketState,
        position: &Position,
        health_factor_after_bps: u64,
        last_action: String,
        last_reason: String,
        last_proof: String,
        decision_line: String,
        receipt_line: String,
        history_len: usize,
    )
        ensures
            final(self).wallet == old(self).wallet,
            final(self).last_slot == market.slot,
            final(self).last_price_micro_usdc == market.price_micro_usdc,
            final(self).health_factor_bps == health_factor_after_bps,
            final(self).collateral_lamports == position.collateral_lamports,
            final(self).stable_micro_usdc == position.stable_micro_usdc,
            final(self).debt_micro_usdc == position.debt_micro_usdc,
            final(self).last_action == last_action,
            final(self).last_reason == last_reason,
            final(self).last_proof == last_proof,
            final(self).last_source == market.source,
            final(self).decisions@ == spec_push_bounded(
                old(self).decisions@,
                decision_line,
                history_len,
            ),
            final(self).receipts@ == spec_push_bounded(
                old(self).receipts@,
                receipt_line,
                history_len,
            ),
    {
        self.last_slot = market.slot;
        self.last_price_micro_usdc = market.price_micro_usdc;
        self.health_factor_bps = health_factor_after_bps;
        self.collateral_lamports = position.collateral_lamports;
        self.stable_micro_usdc = position.stable_micro_usdc;
        self.debt_micro_usdc = position.debt_micro_usdc;
        self.last_action = last_action;
        self.last_reason = last_reason;
        self.last_proof = last_proof;
        self.last_source = market.source.clone();
        self.push_decision(decision_line, history_len);
        self.push_receipt(receipt_line, history_len);
    }
}

/// The decision-history line of one cycle.
pub open spec fn spec_decision_line(
    market: MarketState,
    decision: crate::engine::Decision,
    receipt: crate::executor::ExecutionReceipt,
) -> Seq<char> {
    "slot "@ + spec_u64_dec(market.slot as nat) + " src="@ + market.source@ + " hf="@
        + spec_fixed_dec(decision.health_factor_bps as int, 4) + " action="@
        + crate::executor::spec_action_label_text(receipt.action) + " reason="@
        + crate::engine::spec_rationale_text(decision)
}

/// Renders the decision-history line of one cycle.
pub fn decision_line(
    market: &MarketState,
    decision: &crate::engine::Decision,
    receipt: &crate::executor::ExecutionReceipt,
) -> (r: String)
    ensures
        r@ == spec_decision_line(*market, *decision, *receipt),
{
    let mut out = "slot ".to_owned();
    out.append(u64_to_dec(market.slot).as_str());
    out.append(" src=");
    out.append(market.source.as_str());
    out.append(" hf=");
    out.append(fixed_dec(decision.health_factor_bps, 4).as_str());
    out.append(" action=");
    out.append(receipt.action.text().as_str());
    out.append(" reason=");
    out.append(decision.rationale_text().as_str());
    out
}

/// The receipt-history line of one cycle.
pub open spec fn spec_receipt_line(receipt: crate::executor::ExecutionReceipt) -> Seq<char> {
    "slot "@ + spec_u64_dec(receipt.slot as nat) + " tx="@ + crate::trace::spec_tx_id_text(
        receipt.tx_id,
    ) + " sold="@ + spec_fixed_dec(receipt.sold_lamports as int, 9) + " repaid="@
        + spec_fixed_dec(receipt.repaid_micro_usdc as int, 6) + " hf_after="@ + spec_fixed_dec(
        receipt.health_factor_after_bps as int,
        4,
    ) + " quote="@ + crate::executor::spec_quote_source_text(receipt.quote_source)
}

/// Renders the receipt-history line of one cycle.
pub fn receipt_line(receipt: &crate::executor::ExecutionReceipt) -> (r: String)
    ensures
        r@ == spec_receipt_line(*receipt),
{
    let mut out = "slot ".to_owned();
    out.append(u64_to_dec(receipt.slot).as_str());
    out.append(" tx=");
    out.append(crate::trace::tx_id_text(&receipt.tx_id).as_str());
    out.append(" sold=");
    out.append(fixed_dec(receipt.sold_lamports, 9).as_str());
    out.append(" repaid=");
    out.append(fixed_dec(receipt.repaid_micro_usdc, 6).as_str());
    out.append(" hf_after=");
    out.append(fixed_dec(receipt.health_factor_after_bps, 4).as_str());
    out.append(" quote=");
    out.append(receipt.quote_source.text().as_str());
    out
}

/// A history line as a JSON string: quoted and escaped.
pub open spec fn spec_quoted(s: Seq<char>) -> Seq<char> {
    seq!['"'] + spec_json_escaped(s) + seq!['"']
}

/// The continuation of a JSON array: a comma and a quoted string for each
/// remaining line.
pub open spec fn spec_tail_list(items: Seq<String>) -> Seq<char>
    decreases items.len(),
{
    if items.len() == 0 {
        Seq::empty()
    } else {
        ","@ + spec_quoted(items[0]@) + spec_tail_list(items.skip(1))
    }
}

/// The inside of a JSON array of strings: the lines quoted, escaped and
/// comma-separated.
pub open spec fn spec_quoted_list(items: Seq<String>) -> Seq<char> {
    if items.len() == 0 {
        Seq::empty()
    } else {
        spec_quoted(items[0]@) + spec_tail_list(items.skip(1))
    }
}

proof fn lemma_tail_list_snoc(items: Seq<String>, x: String)
    ensures
        spec_tail_list(items.push(x)) == spec_tail_list(items) + ","@ + spec_quoted(x@),
    decreases items.len(),
{
    if items.len() == 0 {
        assert(items.push(x)[0] == x);
        assert(items.push(x).skip(1) =~= Seq::<String>::empty());
        assert(spec_tail_list(items.push(x)) == ","@ + spec_quoted(x@) + spec_tail_list(
            Seq::<String>::empty(),
        ));
        assert(spec_tail_list(Seq::<String>::empty()) == Seq::<char>::empty());
        assert(spec_tail_list(items) == Seq::<char>::empty());
        assert(","@ + spec_quoted(x@) + Seq::<char>::empty() =~= Seq::<char>::empty() + ","@
            + spec_quoted(x@));
    } else {
        lemma_tail_list_snoc(items.skip(1), x);
        assert(items.push(x).skip(1) =~= items.skip(1).push(x));
        assert(items.push(x)[0] == items[0]);
        assert(spec_tail_list(items.push(x)) == ","@ + spec_quoted(items[0]@) + (spec_tail_list(
            items.skip(1),
        ) + ","@ + spec_quoted(x@)));
        assert(","@ + spec_quoted(items[0]@) + (spec_tail_list(items.skip(1)) + ","@
            + spec_quoted(x@)) =~= (","@ + spec_quoted(items[0]@) + spec_tail_list(
            items.skip(1),
        )) + ","@ + spec_quoted(x@));
    }
}

/// Appending one line extends the rendered array by a comma (when it is
/// not the first) and the quoted line.
pub proof fn lemma_quoted_list_snoc(items: Seq<String>, x: String)
    ensures
        items.len() == 0 ==> spec_quoted_list(items.push(x)) == spec_quoted(x@),
        items.len() > 0 ==> spec_quoted_list(items.push(x)) == spec_quoted_list(items) + ","@
            + spec_quoted(x@),
{
    if items.len() == 0 {
        assert(items.push(x)[0] == x);
        assert(items.push(x).skip(1) =~= Seq::<String>::empty());
    } else {
        assert(items.push(x)[0] == items[0]);
        assert(items.push(x).skip(1) =~= items.skip(1).push(x));
        lemma_tail_list_snoc(items.skip(1), x);
        assert(spec_quoted_list(items.push(x)) =~= spec_quoted_list(items) + ","@ + spec_quoted(
            x@,
        ));
    }
}

/// Renders one history line as a quoted, escaped JSON string.
fn quoted_item(s: &str) -> (r: String)
    ensures
        r@ == spec_quoted(s@),
{
    let mut out = "\"".to_owned();
    out.append(escape_json(s).as_str());
    out.append("\"");
    proof {
        reveal_strlit("\"");
        assert(out@ =~= spec_quoted(s@));
    }
    out
}

/// Renders a history as the inside of a JSON array of strings.
fn quoted_list(items: &VecDeque<String>) -> (r: String)
    ensures
        r@ == spec_quoted_list(items@),
{
    let n = items.len();
    let mut out = String::new();
    let mut i: usize = 0;
    proof {
        assert(items@.take(0) =~= Seq::<String>::empty());
    }
    while i < n
        invariant
            i <= n,
            n == items@.len(),
            out@ == spec_quoted_list(items@.take(i as int)),
        decreases n - i,
    {
        let item: &String = &items[i];
        if i == 0 {
            out.append(quoted_item(item.as_str()).as_str());
        } else {
            out.append(",");
            out.append(quoted_item(item.as_str()).as_str());
        }
        proof {
            reveal_strlit(",");
            lemma_quoted_list_snoc(items@.take(i as int), items@[i as int]);
            assert(items@.take(i + 1int) =~= items@.take(i as int).push(items@[i as int]));
            if i == 0 {
                assert(out@ =~= spec_quoted_list(items@.take(i + 1int)));
            } else {
                assert(out@ =~= spec_quoted_list(items@.take(i as int)) + ","@ + spec_quoted(
                    items@[i as int]@,
                ));
            }
        }
        i += 1;
    }
    proof {
        assert(items@.take(n as int) =~= items@);
    }
    out
}

/// The JSON projection of a snapshot: the wallet, the latest cycle's
/// numbers (prices and quote amounts with six decimals, health factors
/// with four, collateral with nine), the latest labels, and the two
/// histories as arrays of strings.
pub open spec fn spec_dashboard_json(state: DashboardState) -> Seq<char> {
    "{\"wallet\":\""@ + spec_json_escaped(state.wallet@) + "\",\"slot\":"@ + spec_u64_dec(
        state.last_slot as nat,
    ) + ",\"price\":"@ + spec_fixed_dec(state.last_price_micro_usdc as int, 6)
        + ",\"health_factor\":"@ + spec_fixed_dec(state.health_factor_bps as int, 4)
        + ",\"collateral_sol\":"@ + spec_fixed_dec(state.collateral_lamports as int, 9)
        + ",\"stable_usdc\":"@ + spec_fixed_dec(state.stable_micro_usdc as int, 6)
        + ",\"debt_usdc\":"@ + spec_fixed_dec(state.debt_micro_usdc as int, 6)
        + ",\"last_action\":\""@ + spec_json_escaped(state.last_action@)
        + "\",\"last_reason\":\""@ + spec_json_escaped(state.last_reason@)
        + "\",\"last_proof\":\""@ + spec_json_escaped(state.last_proof@)
        + "\",\"last_source\":\""@ + spec_json_escaped(state.last_source@)
        + "\",\"decision_log\":["@ + spec_quoted_list(state.decisions@) + "],\"receipt_log\":["@
        + spec_quoted_list(state.receipts@) + "]}"@
}

/// Serializes the snapshot for the dashboard endpoint.
pub fn dashboard_json(state: &DashboardState) -> (r: String)
    ensures
        r@ == spec_dashboard_json(*state),
{
    let mut out = "{\"wallet\":\"".to_owned();
    out.append(escape_json(state.wallet.as_str()).as_str());
    out.append("\",\"slot\":");
    out.append(u64_to_dec(state.last_slot).as_str());
    out.append(",\"price\":");
    out.append(fixed_dec(state.last_price_micro_usdc, 6).as_str());
    out.append(",\"health_factor\":");
    out.append(fixed_dec(state.health_factor_bps, 4).as_str());
    out.append(",\"collateral_sol\":");
    out.append(fixed_dec(state.collateral_lamports, 9).as_str());
    out.append(",\"stable_usdc\":");
    out.append(fixed_dec(state.stable_micro_usdc, 6).as_str());
    out.append(",\"debt_usdc\":");
    out.append(fixed_dec(state.debt_micro_usdc, 6).as_str());
    out.append(",\"last_action\":\"");
    out.append(escape_json(state.last_action.as_str()).as_str());
    out.append("\",\"last_reason\":\"");
    out.append(escape_json(state.last_reason.as_str()).as_str());
    out.append("\",\"last_proof\":\"");
    out.append(escape_json(state.last_proof.as_str()).as_str());
    out.append("\",\"last_source\":\"");
    out.append(escape_json(state.last_source.as_str()).as_str());
    out.append("\",\"decision_log\":[");
    out.append(quoted_list(&state.decisions).as_str());
    out.append("],\"receipt_log\":[");
    out.append(quoted_list(&state.receipts).as_str());
    out.append("]}");
    out
}

/// Law: pushing onto a bounded history never grows it past the capacity,
/// and a push at capacity evicts exactly the oldest entry.
pub proof fn lemma_push_bounded_capacity<T>(s: Seq<T>, x: T, cap: usize)
    requires
        s.len() <= cap,
    ensures
        spec_push_bounded(s, x, cap).len() <= cap,
        s.len() < cap ==> spec_push_bounded(s, x, cap) == s.push(x),
        s.len() == cap && cap > 0 ==> spec_push_bounded(s, x, cap) == s.push(x).skip(1),
{
    let grown = s.push(x);
    if s.len() < cap {
    } else if cap > 0 {
        assert(grown.skip(grown.len() - cap) =~= grown.skip(1));
    } else {
        assert(grown.skip(grown.len() - cap).len() == 0);
    }
}

} // verus!
