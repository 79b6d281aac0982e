//! The execution simulator: applies a decided action to the position and
//! returns a receipt.
//!
//! The swap venue itself lives outside this crate. Callers obtain a venue
//! quote (or report that none is available) and hand it in as a
//! `QuoteOutcome`; this function is then verified for every possible quote.

use vstd::prelude::*;
use vstd::arithmetic::mul::lemma_mul_upper_bound;
use crate::engine::{spec_effective_price_micro, Action, Decision};
use crate::errors::AegisError;
use crate::market::MarketState;
use crate::position::{spec_health_factor_bps, Position};
use crate::trace::{spec_tx_fingerprint, synthetic_tx_id};
use crate::units::{BPS_SCALE, LAMPORTS_PER_SOL};

verus! {

/// Where the proceeds of a simulated swap came from: a live venue quote in
/// micro quote units, a venue that was tried and failed, or a venue that is
/// disabled — the latter two fall back to the mark-price model.
#[derive(Debug, Clone, Copy, PartialEq, Eq, Structural)]
pub enum QuoteOutcome {
    Venue { proceeds_micro_usdc: u64 },
    VenueUnavailable,
    Disabled,
}

/// The provenance recorded in a receipt, distinguishing degraded execution
/// from nominal execution.
#[derive(Debug, Clone, Copy, PartialEq, Eq, Structural)]
pub enum QuoteSource {
    /// A live venue quote was used.
    JupiterUltra,
    /// The venue failed; the mark-price model stood in.
    FallbackMark,
    /// Live quoting is disabled; the mark-price model was used.
    MarkPrice,
    /// Nothing was swapped.
    NoQuote,
}

/// The label of the action a receipt reports.
#[derive(Debug, Clone, Copy, PartialEq, Eq, Structural)]
pub enum ActionLabel {
    Hold,
    PartialUnwind,
}

/// The outcome of applying one decision: what was sold and repaid, the
/// resulting health factor, the synthetic transaction identifier and the
/// quote provenance.
#[derive(Debug, Clone, PartialEq, Eq)]
pub struct ExecutionReceipt {
    pub slot: u64,
    pub action: ActionLabel,
    pub tx_id: Option<u64>,
    pub repaid_micro_usdc: u64,
    pub sold_lamports: u64,
    pub health_factor_after_bps: u64,
    pub quote_source: QuoteSource,
}

/// The printable form of an action label.
pub open spec fn spec_action_label_text(a: ActionLabel) -> Seq<char> {
    match a {
        ActionLabel::Hold => "hold"@,
        ActionLabel::PartialUnwind => "partial_unwind"@,
    }
}

impl ActionLabel {
    /// Renders the label as `hold` or `partial_unwind`.
    pub fn text(&self) -> (r: String)
        ensures
            r@ == spec_action_label_text(*self),
    {
        match self {
            ActionLabel::Hold => "hold".to_owned(),
            ActionLabel::PartialUnwind => "partial_unwind".to_owned(),
        }
    }
}

/// The printable form of a quote provenance.
pub open spec fn spec_quote_source_text(q: QuoteSource) -> Seq<char> {
    match q {
        QuoteSource::JupiterUltra => "jupiter-ultra"@,
        QuoteSource::FallbackMark => "fallback-mark"@,
        QuoteSource::MarkPrice => "mark-price"@,
        QuoteSource::NoQuote => "none"@,
    }
}

impl QuoteSource {
    /// Renders the provenance tag recorded in receipts and audit rows.
    pub fn text(&self) -> (r: String)
        ensures
            r@ == spec_quote_source_text(*self),
    {
        match self {
            QuoteSource::JupiterUltra => "jupiter-ultra".to_owned(),
            QuoteSource::FallbackMark => "fallback-mark".to_owned(),
            QuoteSource::MarkPrice => "mark-price".to_owned(),
            QuoteSource::NoQuote => "none".to_owned(),
        }
    }
}

/// The mark-price model: the sold amount marked at the slippage-adjusted
/// price, saturating at `u64::MAX`.
pub open spec fn spec_mark_proceeds_micro(
    sell_lamports: u64,
    price_micro_usdc: u64,
    max_slippage_bps: u64,
) -> u64 {
    let p = sell_lamports * spec_effective_price_micro(price_micro_usdc, max_slippage_bps) / (
    LAMPORTS_PER_SOL as int);
    if p > u64::MAX {
        u64::MAX
    } else {
        p as u64
    }
}

/// The proceeds a quote outcome yields for a given sell.
pub open spec fn spec_quote_proceeds_micro(
    quote: QuoteOutcome,
    sell_lamports: u64,
    price_micro_usdc: u64,
    max_slippage_bps: u64,
) -> u64 {
    match quote {
        QuoteOutcome::Venue { proceeds_micro_usdc } => proceeds_micro_usdc,
        QuoteOutcome::VenueUnavailable => spec_mark_proceeds_micro(
            sell_lamports,
            price_micro_usdc,
            max_slippage_bps,
        ),
        QuoteOutcome::Disabled => spec_mark_proceeds_micro(
            sell_lamports,
            price_micro_usdc,
            max_slippage_bps,
        ),
    }
}

/// The provenance a quote outcome is recorded under.
pub open spec fn spec_quote_source(quote: QuoteOutcome) -> QuoteSource {
    match quote {
        QuoteOutcome::Venue { .. } => QuoteSource::JupiterUltra,
        QuoteOutcome::VenueUnavailable => QuoteSource::FallbackMark,
        QuoteOutcome::Disabled => QuoteSource::MarkPrice,
    }
}

/// The amount actually repaid: never more than the proceeds, the
/// outstanding debt, or the decided repayment target.
pub open spec fn spec_repaid_micro(proceeds: u64, debt: u64, target_repay: u64) -> u64 {
    let m = if proceeds <= debt {
        proceeds
    } else {
        debt
    };
    if m <= target_repay {
        m
    } else {
        target_repay
    }
}

/// `a + b`, saturating at `u64::MAX`.
pub open spec fn spec_sat_add_u64(a: u64, b: u64) -> u64 {
    if a + b > u64::MAX {
        u64::MAX
    } else {
        (a + b) as u64
    }
}

/// Computes the mark-price proceeds.
pub(crate) fn mark_proceeds_micro(
    sell_lamports: u64,
    price_micro_usdc: u64,
    max_slippage_bps: u64,
) -> (r: u64)
    requires
        max_slippage_bps <= BPS_SCALE,
    ensures
        r == spec_mark_proceeds_micro(sell_lamports, price_micro_usdc, max_slippage_bps),
{
    let eff = crate::engine::effective_price_micro(price_micro_usdc, max_slippage_bps);
    proof {
        lemma_mul_upper_bound(sell_lamports as int, u64::MAX as int, eff as int, u64::MAX as int);
        assert(u64::MAX * u64::MAX < u128::MAX);
    }
    let wide = (sell_lamports as u128) * (eff as u128) / (LAMPORTS_PER_SOL as u128);
    if wide > u64::MAX as u128 {
        u64::MAX
    } else {
        wide as u64
    }
}

/// Applies one decision to the position.
///
/// A hold mutates nothing and reports zero amounts. A partial unwind first
/// validates its sizing — selling nothing or more than the collateral held
/// is an execution error that leaves the position untouched — then sells,
/// repays no more than the proceeds, the outstanding debt and the decided
/// target, and credits any surplus proceeds to the stable balance
/// (saturating). The receipt's health factor is the position's after the
/// mutation, and its transaction identifier is a deterministic fingerprint
/// of (slot, sold, repaid, priority fee).
pub fn execute(
    position: &mut Position,
    market: &MarketState,
    decision: &Decision,
    max_slippage_bps: u64,
    liquidation_threshold_bps: u64,
    quote: QuoteOutcome,
) -> (r: Result<ExecutionReceipt, AegisError>)
    requires
        max_slippage_bps <= BPS_SCALE,
        liquidation_threshold_bps <= BPS_SCALE,
    ensures
        final(position).wallet == old(position).wallet,
        decision.action is Hold ==> *final(position) == *old(position) && (r matches Ok(rc)
            && rc == ExecutionReceipt {
            slot: decision.slot,
            action: ActionLabel::Hold,
            tx_id: None::<u64>,
            repaid_micro_usdc: 0u64,
            sold_lamports: 0u64,
            health_factor_after_bps: spec_health_factor_bps(
                old(position).collateral_lamports,
                market.price_micro_usdc,
                old(position).stable_micro_usdc,
                old(position).debt_micro_usdc,
                liquidation_threshold_bps,
            ),
            quote_source: QuoteSource::NoQuote,
        }),
        decision.action matches Action::PartialUnwind {
            sell_lamports,
            target_repay_micro_usdc,
            priority_fee,
        } ==> ({
            let proceeds = spec_quote_proceeds_micro(
                quote,
                sell_lamports,
                market.price_micro_usdc,
                max_slippage_bps,
            );
            let repaid = spec_repaid_micro(
                proceeds,
                old(position).debt_micro_usdc,
                target_repay_micro_usdc,
            );
            &&& (sell_lamports == 0 || sell_lamports > old(position).collateral_lamports) ==> (
            *final(position) == *old(position) && (r matches Err(e) && e matches
            AegisError::Execution(_)))
            &&& (0 < sell_lamports <= old(position).collateral_lamports) ==> ({
                &&& final(position).collateral_lamports == old(position).collateral_lamports
                    - sell_lamports
                &&& final(position).debt_micro_usdc == old(position).debt_micro_usdc - repaid
                &&& final(position).stable_micro_usdc == spec_sat_add_u64(
                    old(position).stable_micro_usdc,
                    (proceeds - repaid) as u64,
                )
                &&& (r matches Ok(rc) && rc == ExecutionReceipt {
                    slot: decision.slot,
                    action: ActionLabel::PartialUnwind,
                    tx_id: Some(
                        spec_tx_fingerprint(decision.slot, sell_lamports, repaid, priority_fee),
                    ),
                    repaid_micro_usdc: repaid,
                    sold_lamports: sell_lamports,
                    health_factor_after_bps: spec_health_factor_bps(
                        (old(position).collateral_lamports - sell_lamports) as u64,
                        market.price_micro_usdc,
                        spec_sat_add_u64(
                            old(position).stable_micro_usdc,
                            (proceeds - repaid) as u64,
                        ),
                        (old(position).debt_micro_usdc - repaid) as u64,
                        liquidation_threshold_bps,
                    ),
                    quote_source: spec_quote_source(quote),
                })
            })
            &&& (r matches Ok(rc) ==> rc.repaid_micro_usdc <= target_repay_micro_usdc)
        }),
        r matches Ok(rc) ==> rc.repaid_micro_usdc <= old(position).debt_micro_usdc,
{
    match &decision.action {
        Action::Hold => {
            let hf_after = position.health_factor_bps(
                market.price_micro_usdc,
                liquidation_threshold_bps,
            );
            Ok(
                ExecutionReceipt {
                    slot: decision.slot,
                    action: ActionLabel::Hold,
                    tx_id: None,
                    repaid_micro_usdc: 0,
                    sold_lamports: 0,
                    health_factor_after_bps: hf_after,
                    quote_source: QuoteSource::NoQuote,
                },
            )
        },
        Action::PartialUnwind { sell_lamports, target_repay_micro_usdc, priority_fee } => {
            let sell = *sell_lamports;
            let target_repay = *target_repay_micro_usdc;
            let fee = *priority_fee;
            if sell == 0 {
                return Err(
                    AegisError::Execution("invalid unwind amount; nothing to sell".to_owned()),
                );
            }
            if sell > position.collateral_lamports {
                return Err(
                    AegisError::Execution(
                        "cannot unwind more collateral than held".to_owned(),
                    ),
                );
            }
            let (proceeds, quote_source) = match quote {
                QuoteOutcome::Venue { proceeds_micro_usdc } => (
                    proceeds_micro_usdc,
                    QuoteSource::JupiterUltra,
                ),
                QuoteOutcome::VenueUnavailable => (
                    mark_proceeds_micro(sell, market.price_micro_usdc, max_slippage_bps),
                    QuoteSource::FallbackMark,
                ),
                QuoteOutcome::Disabled => (
                    mark_proceeds_micro(sell, market.price_micro_usdc, max_slippage_bps),
                    QuoteSource::MarkPrice,
                ),
            };
            let capped = if proceeds <= position.debt_micro_usdc {
                proceeds
            } else {
                position.debt_micro_usdc
            };
            let repaid = if capped <= target_repay {
                capped
            } else {
                target_repay
            };
            let surplus = proceeds - repaid;
            position.collateral_lamports = position.collateral_lamports - sell;
            position.stable_micro_usdc = match position.stable_micro_usdc.checked_add(surplus) {
                Some(v) => v,
                None => u64::MAX,
            };
            position.debt_micro_usdc = position.debt_micro_usdc - repaid;
            let hf_after = position.health_factor_bps(
                market.price_micro_usdc,
                liquidation_threshold_bps,
            );
            let tx = synthetic_tx_id(decision.slot, sell, repaid, fee);
            Ok(
                ExecutionReceipt {
                    slot: decision.slot,
                    action: ActionLabel::PartialUnwind,
                    tx_id: Some(tx),
                    repaid_micro_usdc: repaid,
                    sold_lamports: sell,
                    health_factor_after_bps: hf_after,
                    quote_source,
                },
            )
        },
    }
}

/// Law: execution never repays more than the proceeds at hand, the
/// outstanding debt, or the decided target.
pub proof fn lemma_repaid_bounded(proceeds: u64, debt: u64, target_repay: u64)
    ensures
        spec_repaid_micro(proceeds, debt, target_repay) <= proceeds,
        spec_repaid_micro(proceeds, debt, target_repay) <= debt,
        spec_repaid_micro(proceeds, debt, target_repay) <= target_repay,
{
}

} // verus!
