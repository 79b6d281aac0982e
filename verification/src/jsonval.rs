//! A plain-value model of the JSON payloads the upstream services return.
//!
//! The crate never parses raw JSON itself; the caller turns a decoded
//! payload into a `JsonNode` — integers as integers, non-integer numbers
//! as their decimal text — and the verified extraction logic walks that
//! value. Field lookups, numeric coercions and the synonym tolerance of
//! the swap-quote shapes are all specified and proved here.

use vstd::prelude::*;
use crate::errors::AegisError;
use crate::numtext::{
    parse_decimal_micro, parse_i64, parse_u64, spec_parse_decimal_micro, spec_parse_i64,
    spec_parse_u64,
};
use crate::text::str_eq;

verus! {

/// One JSON value, as far as this crate reads it.
#[derive(Debug)]
pub enum JsonNode {
    Null,
    Bool(bool),
    /// A non-negative integer number.
    UInt(u64),
    /// A negative integer number.
    Int(i64),
    /// A non-integer number, carried as its decimal text.
    Frac(String),
    Text(String),
    Array(Vec<JsonNode>),
    Object(Vec<(String, JsonNode)>),
}

/// The first field of `fields` named `key`, if any.
pub open spec fn spec_lookup_field(fields: Seq<(String, JsonNode)>, key: Seq<char>) -> Option<
    JsonNode,
>
    decreases fields.len(),
{
    if fields.len() == 0 {
        None
    } else if fields[0].0@ == key {
        Some(fields[0].1)
    } else {
        spec_lookup_field(fields.skip(1), key)
    }
}

/// The member of an object named `key`; `None` on any other node.
pub open spec fn spec_get(node: JsonNode, key: Seq<char>) -> Option<JsonNode> {
    match node {
        JsonNode::Object(fields) => spec_lookup_field(fields@, key),
        _ => None,
    }
}

/// The `u64` a node denotes: an integer directly, or digit text parsed.
pub open spec fn spec_node_u64(node: JsonNode) -> Option<u64> {
    match node {
        JsonNode::UInt(n) => Some(n),
        JsonNode::Text(s) => spec_parse_u64(s@),
        _ => None,
    }
}

/// The `i64` a node denotes: an integer directly, or signed digit text
/// parsed.
pub open spec fn spec_node_i64(node: JsonNode) -> Option<i64> {
    match node {
        JsonNode::UInt(n) => if n <= i64::MAX as u64 {
            Some(n as i64)
        } else {
            None
        },
        JsonNode::Int(i) => Some(i),
        JsonNode::Text(s) => spec_parse_i64(s@),
        _ => None,
    }
}

/// The price in micro quote units a node denotes: an integer scaled up, or
/// decimal text parsed; negative prices denote nothing.
pub open spec fn spec_node_micro(node: JsonNode) -> Option<u64> {
    match node {
        JsonNode::UInt(n) => if n * 1_000_000 <= u64::MAX {
            Some((n * 1_000_000) as u64)
        } else {
            None
        },
        JsonNode::Frac(s) => spec_parse_decimal_micro(s@),
        JsonNode::Text(s) => spec_parse_decimal_micro(s@),
        _ => None,
    }
}

impl JsonNode {
    /// The member of this object named `key`, if any.
    pub fn get<'a>(&'a self, key: &str) -> (r: Option<&'a JsonNode>)
        ensures
            match r {
                Some(v) => spec_get(*self, key@) == Some(*v),
                None => spec_get(*self, key@) is None,
            },
    {
        match self {
            JsonNode::Object(fields) => {
                let n = fields.len();
                let mut i: usize = 0;
                proof {
                    assert(fields@.skip(0) =~= fields@);
                }
                while i < n
                    invariant
                        i <= n,
                        n == fields@.len(),
                        spec_get(*self, key@) == spec_lookup_field(fields@, key@),
                        spec_lookup_field(fields@.skip(i as int), key@) == spec_lookup_field(
                            fields@,
                            key@,
                        ),
                    decreases n - i,
                {
                    proof {
                        assert(fields@.skip(i as int)[0] == fields@[i as int]);
                        assert(fields@.skip(i as int).skip(1) =~= fields@.skip(i + 1int));
                    }
                    if str_eq(fields[i].0.as_str(), key) {
                        return Some(&fields[i].1);
                    }
                    i += 1;
                }
            },
            _ => {
            },
        }
        None
    }
}

/// Reads a node as a `u64`, with the field name in the error.
pub fn value_to_u64(v: &JsonNode, field: &str) -> (r: Result<u64, AegisError>)
    ensures
        match r {
            Ok(n) => spec_node_u64(*v) == Some(n),
            Err(e) => spec_node_u64(*v) is None && e matches AegisError::Data(_),
        },
{
    match v {
        JsonNode::UInt(n) => Ok(*n),
        JsonNode::Text(s) => match parse_u64(s.as_str()) {
            Some(n) => Ok(n),
            None => Err(AegisError::Data(field.to_owned().concat(" is not a u64"))),
        },
        _ => Err(AegisError::Data(field.to_owned().concat(" is not u64/string"))),
    }
}

/// Reads a node as an `i64`, with the field name in the error.
pub fn value_to_i64(v: &JsonNode, field: &str) -> (r: Result<i64, AegisError>)
    ensures
        match r {
            Ok(n) => spec_node_i64(*v) == Some(n),
            Err(e) => spec_node_i64(*v) is None && e matches AegisError::Data(_),
        },
{
    match v {
        JsonNode::UInt(n) => {
            if *n <= i64::MAX as u64 {
                Ok(*n as i64)
            } else {
                Err(AegisError::Data(field.to_owned().concat(" out of i64 range")))
            }
        },
        JsonNode::Int(i) => Ok(*i),
        JsonNode::Text(s) => match parse_i64(s.as_str()) {
            Some(n) => Ok(n),
            None => Err(AegisError::Data(field.to_owned().concat(" is not an i64"))),
        },
        _ => Err(AegisError::Data(field.to_owned().concat(" is not i64/string"))),
    }
}

/// Reads a node as an `i32`, with the field name in the error.
pub fn value_to_i32(v: &JsonNode, field: &str) -> (r: Result<i32, AegisError>)
    ensures
        match r {
            Ok(n) => spec_node_i64(*v) == Some(n as i64) && i32::MIN <= n <= i32::MAX,
            Err(e) => (spec_node_i64(*v) is None || (spec_node_i64(*v) matches Some(m) && !(
            i32::MIN <= m <= i32::MAX))) && e matches AegisError::Data(_),
        },
{
    match value_to_i64(v, field) {
        Ok(n) => {
            if i32::MIN as i64 <= n && n <= i32::MAX as i64 {
                Ok(n as i32)
            } else {
                Err(AegisError::Data(field.to_owned().concat(" out of i32 range")))
            }
        },
        Err(e) => Err(e),
    }
}

/// Reads a node as a price in micro quote units.
pub fn value_to_micro(v: &JsonNode, field: &str) -> (r: Result<u64, AegisError>)
    ensures
        match r {
            Ok(n) => spec_node_micro(*v) == Some(n),
            Err(e) => spec_node_micro(*v) is None && e matches AegisError::Data(_),
        },
{
    match v {
        JsonNode::UInt(n) => match n.checked_mul(1_000_000) {
            Some(scaled) => Ok(scaled),
            None => Err(AegisError::Data(field.to_owned().concat(" is out of price range"))),
        },
        JsonNode::Frac(s) => match parse_decimal_micro(s.as_str()) {
            Some(n) => Ok(n),
            None => Err(AegisError::Data(field.to_owned().concat(" is not a price"))),
        },
        JsonNode::Text(s) => match parse_decimal_micro(s.as_str()) {
            Some(n) => Ok(n),
            None => Err(AegisError::Data(field.to_owned().concat(" is not a price"))),
        },
        _ => Err(AegisError::Data(field.to_owned().concat(" is not number/string"))),
    }
}

/// The amount under `key`, when it is present and reads as a `u64`.
pub open spec fn spec_key_amount(body: JsonNode, key: Seq<char>) -> Option<u64> {
    match spec_get(body, key) {
        Some(v) => spec_node_u64(v),
        None => None,
    }
}

/// The out-amount of one route step: its `swapInfo` member's `outAmount`,
/// else its `outputAmount`.
pub open spec fn spec_swap_info_amount(step: JsonNode) -> Option<u64> {
    match spec_get(step, "swapInfo"@) {
        Some(si) => match spec_key_amount(si, "outAmount"@) {
            Some(n) => Some(n),
            None => spec_key_amount(si, "outputAmount"@),
        },
        None => None,
    }
}

/// The first route step with a readable out-amount.
pub open spec fn spec_route_plan_amount(steps: Seq<JsonNode>) -> Option<u64>
    decreases steps.len(),
{
    if steps.len() == 0 {
        None
    } else {
        match spec_swap_info_amount(steps[0]) {
            Some(n) => Some(n),
            None => spec_route_plan_amount(steps.skip(1)),
        }
    }
}

/// The out-amount of a swap-quote payload, accepting the known field-name
/// synonyms: the top-level `outAmount`, `outputAmount`,
/// `outAmountWithSlippage` or `otherAmountThreshold`, else the first
/// readable step of `routePlan`.
pub open spec fn spec_extract_out_amount(body: JsonNode) -> Option<u64> {
    match spec_key_amount(body, "outAmount"@) {
        Some(n) => Some(n),
        None => match spec_key_amount(body, "outputAmount"@) {
            Some(n) => Some(n),
            None => match spec_key_amount(body, "outAmountWithSlippage"@) {
                Some(n) => Some(n),
                None => match spec_key_amount(body, "otherAmountThreshold"@) {
                    Some(n) => Some(n),
                    None => match spec_get(body, "routePlan"@) {
                        Some(JsonNode::Array(steps)) => spec_route_plan_amount(steps@),
                        _ => None,
                    },
                },
            },
        },
    }
}

/// What an RPC response envelope yields: nothing when it carries an
/// `error` member, else its `result` member.
pub open spec fn spec_rpc_result(body: JsonNode) -> Option<JsonNode> {
    if spec_get(body, "error"@) is Some {
        None
    } else {
        spec_get(body, "result"@)
    }
}

/// Unwraps an RPC response envelope: an `error` member or a missing
/// `result` member is a data error.
pub fn extract_rpc_result<'a>(body: &'a JsonNode) -> (r: Result<&'a JsonNode, AegisError>)
    ensures
        match r {
            Ok(v) => spec_rpc_result(*body) == Some(*v),
            Err(e) => spec_rpc_result(*body) is None && e matches AegisError::Data(_),
        },
{
    if let Some(_err) = body.get("error") {
        return Err(AegisError::Data("rpc response carries an error".to_owned()));
    }
    match body.get("result") {
        Some(v) => Ok(v),
        None => Err(AegisError::Data("rpc response missing result".to_owned())),
    }
}

/// The raw price and exponent of an oracle payload: the first entry of
/// `parsed`, its `price` object, and that object's `price` and `expo`
/// members.
pub open spec fn spec_pyth_payload(body: JsonNode) -> Option<(i64, i32)> {
    match spec_get(body, "parsed"@) {
        Some(JsonNode::Array(entries)) => if entries@.len() == 0 {
            None
        } else {
            match spec_get(entries@[0], "price"@) {
                Some(price_obj) => match spec_get(price_obj, "price"@) {
                    Some(raw) => match spec_node_i64(raw) {
                        Some(p) => match spec_get(price_obj, "expo"@) {
                            Some(e_node) => match spec_node_i64(e_node) {
                                Some(e) => if i32::MIN <= e <= i32::MAX {
                                    Some((p, e as i32))
                                } else {
                                    None
                                },
                                None => None,
                            },
                            None => None,
                        },
                        None => None,
                    },
                    None => None,
                },
                None => None,
            }
        },
        _ => None,
    }
}

/// Extracts the raw integer price and exponent from an oracle payload.
pub fn extract_pyth_price(body: &JsonNode) -> (r: Result<(i64, i32), AegisError>)
    ensures
        match r {
            Ok(pe) => spec_pyth_payload(*body) == Some(pe),
            Err(e) => spec_pyth_payload(*body) is None && e matches AegisError::Data(_),
        },
{
    let entries = match body.get("parsed") {
        Some(v) => match v {
            JsonNode::Array(entries) => entries,
            _ => {
                return Err(AegisError::Data("pyth parsed is not an array".to_owned()));
            },
        },
        None => {
            return Err(AegisError::Data("pyth parsed missing".to_owned()));
        },
    };
    if entries.len() == 0 {
        return Err(AegisError::Data("pyth parsed is empty".to_owned()));
    }
    let price_obj = match entries[0].get("price") {
        Some(v) => v,
        None => {
            return Err(AegisError::Data("pyth price object missing".to_owned()));
        },
    };
    let raw_node = match price_obj.get("price") {
        Some(v) => v,
        None => {
            return Err(AegisError::Data("pyth price missing".to_owned()));
        },
    };
    let raw = match value_to_i64(raw_node, "pyth price") {
        Ok(p) => p,
        Err(e) => {
            return Err(e);
        },
    };
    let expo_node = match price_obj.get("expo") {
        Some(v) => v,
        None => {
            return Err(AegisError::Data("pyth expo missing".to_owned()));
        },
    };
    let expo = match value_to_i32(expo_node, "pyth expo") {
        Ok(e) => e,
        Err(e) => {
            return Err(e);
        },
    };
    Ok((raw, expo))
}

/// The price of an asset in an aggregator payload: the asset's entry under
/// `data`, read from `usdPrice` when that member is present, else from
/// `price`.
pub open spec fn spec_aggregator_price(body: JsonNode, asset_key: Seq<char>) -> Option<u64> {
    match spec_get(body, "data"@) {
        Some(data) => match spec_get(data, asset_key) {
            Some(node) => match spec_get(node, "usdPrice"@) {
                Some(v) => spec_node_micro(v),
                None => match spec_get(node, "price"@) {
                    Some(v) => spec_node_micro(v),
                    None => None,
                },
            },
            None => None,
        },
        None => None,
    }
}

/// Extracts an asset's price in micro quote units from an aggregator
/// payload keyed by asset identifier.
pub fn extract_aggregator_price(body: &JsonNode, asset_key: &str) -> (r: Result<u64, AegisError>)
    ensures
        match r {
            Ok(p) => spec_aggregator_price(*body, asset_key@) == Some(p),
            Err(e) => spec_aggregator_price(*body, asset_key@) is None && e matches
                AegisError::Data(_),
        },
{
    let data = match body.get("data") {
        Some(v) => v,
        None => {
            return Err(AegisError::Data("aggregator data missing".to_owned()));
        },
    };
    let node = match data.get(asset_key) {
        Some(v) => v,
        None => {
            return Err(AegisError::Data("aggregator asset entry missing".to_owned()));
        },
    };
    match node.get("usdPrice") {
        Some(v) => value_to_micro(v, "aggregator usdPrice"),
        None => match node.get("price") {
            Some(v) => value_to_micro(v, "aggregator price"),
            None => Err(AegisError::Data("aggregator price missing".to_owned())),
        },
    }
}

/// The fee samples of a fee-history payload: each row's
/// `prioritizationFee` member, keeping only those that read as a `u64`.
pub open spec fn spec_fee_samples(rows: Seq<JsonNode>) -> Seq<u64>
    decreases rows.len(),
{
    if rows.len() == 0 {
        Seq::empty()
    } else {
        let rest = spec_fee_samples(rows.skip(1));
        match spec_get(rows[0], "prioritizationFee"@) {
            Some(v) => match spec_node_u64(v) {
                Some(n) => seq![n] + rest,
                None => rest,
            },
            None => rest,
        }
    }
}

/// Extracts the readable fee samples from a fee-history payload; an error
/// when the payload is not an array.
pub fn extract_fee_samples(body: &JsonNode) -> (r: Result<Vec<u64>, AegisError>)
    ensures
        match r {
            Ok(fees) => body matches JsonNode::Array(rows) && fees@ == spec_fee_samples(rows@),
            Err(e) => !(body matches JsonNode::Array(_)) && e matches AegisError::Data(_),
        },
{
    match body {
        JsonNode::Array(rows) => {
            let n = rows.len();
            let mut out: Vec<u64> = Vec::new();
            let mut i: usize = 0;
            proof {
                assert(rows@.skip(0) =~= rows@);
                assert(out@ + spec_fee_samples(rows@.skip(0)) =~= spec_fee_samples(rows@));
            }
            while i < n
                invariant
                    i <= n,
                    n == rows@.len(),
                    out@ + spec_fee_samples(rows@.skip(i as int)) == spec_fee_samples(rows@),
                decreases n - i,
            {
                proof {
                    assert(rows@.skip(i as int)[0] == rows@[i as int]);
                    assert(rows@.skip(i as int).skip(1) =~= rows@.skip(i + 1int));
                }
                match rows[i].get("prioritizationFee") {
                    Some(v) => match v {
                        JsonNode::UInt(f) => {
                            out.push(*f);
                            proof {
                                assert(out@ + spec_fee_samples(rows@.skip(i + 1int))
                                    =~= spec_fee_samples(rows@));
                            }
                        },
                        JsonNode::Text(s) => match parse_u64(s.as_str()) {
                            Some(f) => {
                                out.push(f);
                                proof {
                                    assert(out@ + spec_fee_samples(rows@.skip(i + 1int))
                                        =~= spec_fee_samples(rows@));
                                }
                            },
                            None => {
                            },
                        },
                        _ => {
                        },
                    },
                    None => {
                    },
                }
                i += 1;
            }
            proof {
                assert(rows@.skip(n as int) =~= Seq::<JsonNode>::empty());
                assert(out@ =~= out@ + spec_fee_samples(rows@.skip(n as int)));
            }
            Ok(out)
        },
        _ => Err(AegisError::Data("fee rows are not an array".to_owned())),
    }
}

/// The amount under `key`, when it reads as a `u64`.
fn try_key_amount(body: &JsonNode, key: &str) -> (r: Option<u64>)
    ensures
        r == spec_key_amount(*body, key@),
{
    match body.get(key) {
        Some(v) => match v {
            JsonNode::UInt(n) => Some(*n),
            JsonNode::Text(s) => parse_u64(s.as_str()),
            _ => None,
        },
        None => None,
    }
}

/// Extracts the out-amount in micro quote units from a swap-quote payload,
/// tolerating the known field-name and shape synonyms.
pub fn extract_out_amount_micro_usdc(body: &JsonNode) -> (r: Option<u64>)
    ensures
        r == spec_extract_out_amount(*body),
{
    if let Some(n) = try_key_amount(body, "outAmount") {
        return Some(n);
    }
    if let Some(n) = try_key_amount(body, "outputAmount") {
        return Some(n);
    }
    if let Some(n) = try_key_amount(body, "outAmountWithSlippage") {
        return Some(n);
    }
    if let Some(n) = try_key_amount(body, "otherAmountThreshold") {
        return Some(n);
    }
    match body.get("routePlan") {
        Some(plan) => match plan {
            JsonNode::Array(steps) => {
                let n = steps.len();
                let mut i: usize = 0;
                proof {
                    assert(steps@.skip(0) =~= steps@);
                }
                while i < n
                    invariant
                        i <= n,
                        n == steps@.len(),
                        spec_extract_out_amount(*body) == spec_route_plan_amount(steps@),
                        spec_route_plan_amount(steps@.skip(i as int)) == spec_route_plan_amount(
                            steps@,
                        ),
                    decreases n - i,
                {
                    proof {
                        assert(steps@.skip(i as int)[0] == steps@[i as int]);
                        assert(steps@.skip(i as int).skip(1) =~= steps@.skip(i + 1int));
                    }
                    let step = &steps[i];
                    match step.get("swapInfo") {
                        Some(si) => {
                            if let Some(a) = try_key_amount(si, "outAmount") {
                                return Some(a);
                            }
                            if let Some(a) = try_key_amount(si, "outputAmount") {
                                return Some(a);
                            }
                        },
                        None => {
                        },
                    }
                    i += 1;
                }
                None
            },
            _ => None,
        },
        None => None,
    }
}

} // verus!
