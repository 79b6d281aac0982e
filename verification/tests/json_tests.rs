use aegis::jsonval::{
    extract_aggregator_price, extract_fee_samples, extract_out_amount_micro_usdc,
    extract_pyth_price, extract_rpc_result, value_to_i32, value_to_u64, JsonNode,
};

fn obj(fields: Vec<(&str, JsonNode)>) -> JsonNode {
    JsonNode::Object(
        fields
            .into_iter()
            .map(|(k, v)| (k.to_string(), v))
            .collect(),
    )
}

#[test]
fn extract_out_amount_parses_string_and_number_fields() {
    let as_string = obj(vec![("outAmount", JsonNode::Text("42000000".to_string()))]);
    let as_number = obj(vec![("outputAmount", JsonNode::UInt(1_100_000))]);
    assert_eq!(extract_out_amount_micro_usdc(&as_string), Some(42_000_000));
    assert_eq!(extract_out_amount_micro_usdc(&as_number), Some(1_100_000));
}

#[test]
fn extract_out_amount_walks_the_route_plan() {
    let body = obj(vec![(
        "routePlan",
        JsonNode::Array(vec![
            obj(vec![("other", JsonNode::UInt(1))]),
            obj(vec![(
                "swapInfo",
                obj(vec![("outputAmount", JsonNode::Text("777".to_string()))]),
            )]),
        ]),
    )]);
    assert_eq!(extract_out_amount_micro_usdc(&body), Some(777));
}

#[test]
fn extract_out_amount_misses_cleanly() {
    let body = obj(vec![("unrelated", JsonNode::UInt(5))]);
    assert_eq!(extract_out_amount_micro_usdc(&body), None);
    assert_eq!(extract_out_amount_micro_usdc(&JsonNode::Null), None);
    // An unreadable amount under a known key falls through to the next.
    let body = obj(vec![
        ("outAmount", JsonNode::Text("not-a-number".to_string())),
        ("outputAmount", JsonNode::UInt(9)),
    ]);
    assert_eq!(extract_out_amount_micro_usdc(&body), Some(9));
}

#[test]
fn value_coercions_match_the_upstream_shapes() {
    assert_eq!(value_to_u64(&JsonNode::UInt(7), "f").unwrap(), 7);
    assert_eq!(
        value_to_u64(&JsonNode::Text("42000000".to_string()), "f").unwrap(),
        42_000_000
    );
    assert!(value_to_u64(&JsonNode::Text("nope".to_string()), "f").is_err());
    assert!(value_to_u64(&JsonNode::Null, "f").is_err());
    assert_eq!(value_to_i32(&JsonNode::Int(-8), "f").unwrap(), -8);
    assert_eq!(
        value_to_i32(&JsonNode::Text("-8".to_string()), "f").unwrap(),
        -8
    );
    assert!(value_to_i32(&JsonNode::UInt(u64::MAX), "f").is_err());
}

#[test]
fn pyth_payload_yields_price_and_exponent() {
    let body = obj(vec![(
        "parsed",
        JsonNode::Array(vec![obj(vec![(
            "price",
            obj(vec![
                ("price", JsonNode::Text("17012345678".to_string())),
                ("expo", JsonNode::Int(-8)),
            ]),
        )])]),
    )]);
    assert_eq!(extract_pyth_price(&body).unwrap(), (17_012_345_678, -8));
}

#[test]
fn pyth_payload_errors_are_data_errors() {
    let body = obj(vec![("parsed", JsonNode::Array(vec![]))]);
    assert!(matches!(
        extract_pyth_price(&body),
        Err(aegis::errors::AegisError::Data(_))
    ));
    assert!(extract_pyth_price(&JsonNode::Null).is_err());
}

#[test]
fn aggregator_payload_yields_micro_price() {
    let mint = "So11111111111111111111111111111111111111112";
    let body = obj(vec![(
        "data",
        obj(vec![(
            mint,
            obj(vec![("usdPrice", JsonNode::Frac("170.25".to_string()))]),
        )]),
    )]);
    assert_eq!(extract_aggregator_price(&body, mint).unwrap(), 170_250_000);

    // The `price` synonym is accepted when `usdPrice` is absent.
    let body = obj(vec![(
        "data",
        obj(vec![(mint, obj(vec![("price", JsonNode::UInt(171))]))]),
    )]);
    assert_eq!(extract_aggregator_price(&body, mint).unwrap(), 171_000_000);

    let body = obj(vec![("data", obj(vec![]))]);
    assert!(extract_aggregator_price(&body, mint).is_err());
}

#[test]
fn rpc_envelopes_unwrap_their_result() {
    let body = obj(vec![("result", JsonNode::UInt(361_000_000))]);
    let result = extract_rpc_result(&body).unwrap();
    assert_eq!(value_to_u64(result, "slot").unwrap(), 361_000_000);

    let body = obj(vec![
        ("error", JsonNode::Text("boom".to_string())),
        ("result", JsonNode::UInt(1)),
    ]);
    assert!(matches!(
        extract_rpc_result(&body),
        Err(aegis::errors::AegisError::Data(_))
    ));
    assert!(extract_rpc_result(&obj(vec![])).is_err());
}

#[test]
fn fee_samples_keep_only_readable_rows() {
    let rows = JsonNode::Array(vec![
        obj(vec![("prioritizationFee", JsonNode::UInt(100))]),
        obj(vec![("prioritizationFee", JsonNode::Text("250".to_string()))]),
        obj(vec![("prioritizationFee", JsonNode::Null)]),
        obj(vec![("other", JsonNode::UInt(9))]),
    ]);
    assert_eq!(extract_fee_samples(&rows).unwrap(), vec![100, 250]);
    assert!(extract_fee_samples(&JsonNode::Null).is_err());
}
