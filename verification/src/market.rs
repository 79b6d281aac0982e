//! Market observations, the deterministic scripted source, and the pure
//! computations behind the live source: the fee-sample percentile and the
//! oracle exponent conversion.

use vstd::prelude::*;
use crate::clock::now_ms;
use crate::numtext::{lemma_pow10_le, lemma_pow10_pos, lemma_pow10_vals, pow10_u64, spec_pow10};

verus! {

/// One externally-sourced market snapshot: sequence number, collateral
/// price in micro quote units, an observed network fee signal, a timestamp
/// and the provenance of the data.
#[derive(Debug, Clone, PartialEq, Eq)]
pub struct MarketState {
    pub slot: u64,
    pub price_micro_usdc: u64,
    pub observed_priority_fee: u64,
    pub ts_ms: u64,
    pub source: String,
}

/// A deterministic market source: replays a fixed list of (price, fee)
/// pairs, one per call, assigning sequence numbers 1..N, then signals
/// exhaustion. It exists to make the engine and the executor fully testable
/// without network access.
#[derive(Debug, Clone)]
pub struct ScriptedPythSource {
    pub idx: usize,
    pub script: Vec<(u64, u64)>,
}

impl ScriptedPythSource {
    /// A source that will replay `script` from the beginning.
    pub fn new(script: Vec<(u64, u64)>) -> (src: ScriptedPythSource)
        ensures
            src.idx == 0,
            src.script == script,
    {
        ScriptedPythSource { idx: 0, script }
    }

    /// The next observation, or `None` once the script is exhausted.
    ///
    /// The `i`-th call (counting from 0) yields slot `i + 1` with the
    /// `i`-th scripted price and fee, tagged as scripted data; only the
    /// timestamp comes from the wall clock.
    pub fn next(&mut self) -> (r: Option<MarketState>)
        ensures
            old(self).script == final(self).script,
            old(self).idx >= old(self).script.len() ==> r is None && final(self).idx == old(
                self,
            ).idx,
            old(self).idx < old(self).script.len() ==> final(self).idx == old(self).idx + 1
                && (r matches Some(m) && m.slot == old(self).idx + 1 && m.price_micro_usdc == old(
                self,
            ).script[old(self).idx as int].0 && m.observed_priority_fee == old(self).script[old(
                self,
            ).idx as int].1 && m.source@ == "scripted"@),
    {
        if self.idx >= self.script.len() {
            return None;
        }
        let (price_micro_usdc, observed_priority_fee) = self.script[self.idx];
        let slot = (self.idx + 1) as u64;
        self.idx = self.idx + 1;
        Some(
            MarketState {
                slot,
                price_micro_usdc,
                observed_priority_fee,
                ts_ms: now_ms(),
                source: "scripted".to_owned(),
            },
        )
    }
}

/// `x` inserted before the first larger element of `s`.
pub open spec fn spec_insert_sorted(x: u64, s: Seq<u64>) -> Seq<u64>
    decreases s.len(),
{
    if s.len() == 0 {
        seq![x]
    } else if x < s[0] {
        seq![x] + s
    } else {
        seq![s[0]] + spec_insert_sorted(x, s.skip(1))
    }
}

/// `s` rearranged into non-decreasing order by repeated insertion.
pub open spec fn spec_sorted_seq(s: Seq<u64>) -> Seq<u64>
    decreases s.len(),
{
    if s.len() == 0 {
        Seq::empty()
    } else {
        spec_insert_sorted(s.last(), spec_sorted_seq(s.drop_last()))
    }
}

/// Inserting one element grows the length by one.
pub proof fn lemma_insert_sorted_len(x: u64, s: Seq<u64>)
    ensures
        spec_insert_sorted(x, s).len() == s.len() + 1,
    decreases s.len(),
{
    if s.len() > 0 && !(x < s[0]) {
        lemma_insert_sorted_len(x, s.skip(1));
    }
}

/// Sorting keeps the length.
pub proof fn lemma_sorted_seq_len(s: Seq<u64>)
    ensures
        spec_sorted_seq(s).len() == s.len(),
    decreases s.len(),
{
    if s.len() > 0 {
        lemma_sorted_seq_len(s.drop_last());
        lemma_insert_sorted_len(s.last(), spec_sorted_seq(s.drop_last()));
    }
}

/// Where the scan in `sort_fees` stops is where `spec_insert_sorted`
/// places the element.
proof fn lemma_insert_sorted_at(s: Seq<u64>, x: u64, j: int)
    requires
        0 <= j <= s.len(),
        forall|k: int| 0 <= k < j ==> s[k] <= x,
        j < s.len() ==> x < s[j],
    ensures
        spec_insert_sorted(x, s) == s.take(j) + seq![x] + s.skip(j),
    decreases j,
{
    if j == 0 {
        assert(spec_insert_sorted(x, s) =~= s.take(0) + seq![x] + s.skip(0));
    } else {
        lemma_insert_sorted_at(s.skip(1), x, j - 1);
        assert(s.skip(1).take(j - 1) =~= s.take(j).skip(1));
        assert(s.skip(1).skip(j - 1) =~= s.skip(j));
        assert(spec_insert_sorted(x, s) =~= s.take(j) + seq![x] + s.skip(j));
    }
}

/// Sorts the samples into non-decreasing order by insertion.
pub fn sort_fees(fees: &Vec<u64>) -> (r: Vec<u64>)
    ensures
        r@ == spec_sorted_seq(fees@),
{
    let mut out: Vec<u64> = Vec::new();
    let n = fees.len();
    let mut i: usize = 0;
    proof {
        assert(fees@.take(0) =~= Seq::<u64>::empty());
    }
    while i < n
        invariant
            i <= n,
            n == fees@.len(),
            out@ == spec_sorted_seq(fees@.take(i as int)),
        decreases n - i,
    {
        let x = fees[i];
        proof {
            lemma_sorted_seq_len(fees@.take(i as int));
        }
        let mut j: usize = 0;
        while j < out.len() && out[j] <= x
            invariant
                j <= out@.len(),
                forall|k: int| 0 <= k < j ==> out@[k] <= x,
            decreases out@.len() - j,
        {
            j += 1;
        }
        proof {
            lemma_insert_sorted_at(out@, x, j as int);
        }
        out.insert(j, x);
        proof {
            assert(out@ =~= spec_insert_sorted(x, spec_sorted_seq(fees@.take(i as int))));
            assert(fees@.take(i + 1int).drop_last() =~= fees@.take(i as int));
            assert(fees@.take(i + 1int).last() == fees@[i as int]);
        }
        i += 1;
    }
    proof {
        assert(fees@.take(n as int) =~= fees@);
    }
    out
}

/// The fee chosen from a batch of samples: the one at the configured
/// percentile rank of the sorted batch, or the default when the batch is
/// empty.
pub open spec fn spec_percentile_fee(fees: Seq<u64>, percentile_bps: u64, default_fee: u64) -> u64 {
    if fees.len() == 0 {
        default_fee
    } else {
        let rank = fees.len() * percentile_bps / 10_000;
        let idx = if rank >= fees.len() {
            fees.len() - 1
        } else {
            rank
        };
        spec_sorted_seq(fees)[idx]
    }
}

/// Picks the fee at the given percentile (in basis points) of the sorted
/// samples; an empty batch yields the default.
pub fn fee_percentile(fees: &Vec<u64>, percentile_bps: u64, default_fee: u64) -> (r: u64)
    ensures
        r == spec_percentile_fee(fees@, percentile_bps, default_fee),
{
    let n = fees.len();
    if n == 0 {
        return default_fee;
    }
    let sorted = sort_fees(fees);
    proof {
        lemma_sorted_seq_len(fees@);
        vstd::arithmetic::mul::lemma_mul_upper_bound(
            n as int,
            usize::MAX as int,
            percentile_bps as int,
            u64::MAX as int,
        );
        assert((usize::MAX as int) * (u64::MAX as int) < u128::MAX);
        vstd::arithmetic::div_mod::lemma_div_nonincreasing(
            (n as int) * (percentile_bps as int),
            10_000,
        );
    }
    let rank_wide = (n as u128) * (percentile_bps as u128) / 10_000;
    let idx = if rank_wide >= n as u128 {
        n - 1
    } else {
        rank_wide as usize
    };
    sorted[idx]
}

/// The oracle price in micro quote units: the raw integer price scaled by
/// ten to the exponent, shifted into micro units. Prices that are not
/// strictly positive, or that fall outside the `u64` range after scaling,
/// denote nothing.
pub open spec fn spec_pyth_micro(price: i64, expo: i32) -> Option<u64> {
    if price <= 0 {
        None
    } else {
        let e = expo + 6;
        let v = if e >= 0 {
            (price as int) * spec_pow10(e as nat)
        } else {
            (price as int) / spec_pow10((-e) as nat)
        };
        if v > u64::MAX || v == 0 {
            None
        } else {
            Some(v as u64)
        }
    }
}

/// Converts a raw oracle price and exponent into micro quote units.
pub fn pyth_price_to_micro(price: i64, expo: i32) -> (r: Option<u64>)
    ensures
        r == spec_pyth_micro(price, expo),
{
    if price <= 0 {
        return None;
    }
    let e: i64 = expo as i64 + 6;
    if e >= 0 {
        if e > 19 {
            proof {
                lemma_pow10_vals();
                lemma_pow10_le(20, e as nat);
                vstd::arithmetic::mul::lemma_mul_inequality(
                    spec_pow10(20),
                    spec_pow10(e as nat),
                    price as int,
                );
                vstd::arithmetic::mul::lemma_mul_is_commutative(spec_pow10(20), price as int);
                vstd::arithmetic::mul::lemma_mul_is_commutative(spec_pow10(e as nat), price as int);
                assert((price as int) * spec_pow10(20) >= spec_pow10(20)) by (nonlinear_arith)
                    requires
                        price as int >= 1,
                        spec_pow10(20) >= 1,
                ;
            }
            return None;
        }
        let pow = pow10_u64(e as usize);
        proof {
            vstd::arithmetic::mul::lemma_mul_upper_bound(
                price as int,
                i64::MAX as int,
                pow as int,
                u64::MAX as int,
            );
            assert((i64::MAX as int) * (u64::MAX as int) < u128::MAX);
            vstd::arithmetic::mul::lemma_mul_strictly_positive(price as int, pow as int);
        }
        let wide = (price as u128) * (pow as u128);
        if wide > u64::MAX as u128 {
            None
        } else {
            Some(wide as u64)
        }
    } else {
        let k = -e;
        if k > 19 {
            proof {
                lemma_pow10_vals();
                lemma_pow10_le(20, k as nat);
                vstd::arithmetic::div_mod::lemma_basic_div(price as int, spec_pow10(k as nat));
            }
            return None;
        }
        let pow = pow10_u64(k as usize);
        let v = (price as u64) / pow;
        if v == 0 {
            None
        } else {
            Some(v)
        }
    }
}

} // verus!
