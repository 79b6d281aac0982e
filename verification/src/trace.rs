//! Deterministic fingerprints over a decision's numeric inputs.
//!
//! Every decision carries a proof token and every simulated unwind a
//! synthetic transaction identifier. Both are FNV-style folds over the exact
//! integer values that went into the decision, so two evaluations with
//! identical inputs always produce identical fingerprints and an auditor can
//! replay a run and compare.

use vstd::prelude::*;

verus! {

/// The FNV-1a 64-bit offset basis.
pub const FP_OFFSET: u64 = 0xcbf2_9ce4_8422_2325;

/// The FNV-1a 64-bit prime.
pub const FP_PRIME: u64 = 0x0000_0100_0000_01b3;

/// One fold step: xor the next word in, then multiply by the prime,
/// wrapping modulo 2^64.
pub open spec fn spec_mix(h: u64, v: u64) -> u64 {
    (h ^ v).wrapping_mul(FP_PRIME)
}

/// One executable fold step; it equals `spec_mix` exactly.
pub fn mix(h: u64, v: u64) -> (r: u64)
    ensures
        r == spec_mix(h, v),
{
    (h ^ v).wrapping_mul(FP_PRIME)
}

/// The synthetic transaction identifier of a simulated unwind: a fold over
/// sequence number, amount sold, amount repaid and priority fee.
pub open spec fn spec_tx_fingerprint(
    slot: u64,
    sell_lamports: u64,
    repaid_micro_usdc: u64,
    priority_fee: u64,
) -> u64 {
    spec_mix(
        spec_mix(spec_mix(spec_mix(FP_OFFSET, slot), sell_lamports), repaid_micro_usdc),
        priority_fee,
    )
}

/// Derives the synthetic transaction identifier for a simulated unwind.
pub fn synthetic_tx_id(
    slot: u64,
    sell_lamports: u64,
    repaid_micro_usdc: u64,
    priority_fee: u64,
) -> (r: u64)
    ensures
        r == spec_tx_fingerprint(slot, sell_lamports, repaid_micro_usdc, priority_fee),
{
    let h = mix(FP_OFFSET, slot);
    let h = mix(h, sell_lamports);
    let h = mix(h, repaid_micro_usdc);
    mix(h, priority_fee)
}

/// Law: the transaction fingerprint is a function of its four inputs alone —
/// equal inputs give an equal identifier.
pub proof fn lemma_tx_fingerprint_deterministic(
    slot1: u64,
    sell1: u64,
    repaid1: u64,
    fee1: u64,
    slot2: u64,
    sell2: u64,
    repaid2: u64,
    fee2: u64,
)
    requires
        slot1 == slot2,
        sell1 == sell2,
        repaid1 == repaid2,
        fee1 == fee2,
    ensures
        spec_tx_fingerprint(slot1, sell1, repaid1, fee1) == spec_tx_fingerprint(
            slot2,
            sell2,
            repaid2,
            fee2,
        ),
{
}

/// The printable form of a proof token.
pub open spec fn spec_proof_token_text(token: u64) -> Seq<char> {
    "proof-0x"@ + crate::numtext::spec_hex_digits(token as int, 16)
}

/// Renders a proof token as `proof-0x` followed by sixteen hex digits.
pub fn proof_token_text(token: u64) -> (r: String)
    ensures
        r@ == spec_proof_token_text(token),
{
    let mut out = "proof-0x".to_owned();
    out.append(crate::numtext::u64_to_hex16(token).as_str());
    out
}

/// The printable form of a synthetic transaction identifier; a cycle that
/// swapped nothing has none.
pub open spec fn spec_tx_id_text(tx: Option<u64>) -> Seq<char> {
    match tx {
        Some(t) => "tx-0x"@ + crate::numtext::spec_hex_digits(t as int, 16),
        None => "none"@,
    }
}

/// Renders a synthetic transaction identifier as `tx-0x` followed by
/// sixteen hex digits, or `none`.
pub fn tx_id_text(tx: &Option<u64>) -> (r: String)
    ensures
        r@ == spec_tx_id_text(*tx),
{
    match tx {
        Some(t) => {
            let mut out = "tx-0x".to_owned();
            out.append(crate::numtext::u64_to_hex16(*t).as_str());
            out
        },
        None => "none".to_owned(),
    }
}

} // verus!
