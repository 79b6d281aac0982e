use aegis::fees::dynamic_priority_fee;
use aegis::market::{fee_percentile, pyth_price_to_micro, sort_fees, ScriptedPythSource};

#[test]
fn dynamic_fee_scales_with_urgency() {
    let warning = dynamic_priority_fee(30_000, "warning", 10_000, 200_000);
    let emergency = dynamic_priority_fee(30_000, "emergency", 10_000, 200_000);
    assert!(emergency > warning);
}

#[test]
fn dynamic_fee_exact_scaling() {
    assert_eq!(dynamic_priority_fee(30_000, "warning", 10_000, 200_000), 36_000);
    assert_eq!(dynamic_priority_fee(30_000, "emergency", 10_000, 200_000), 60_000);
}

#[test]
fn dynamic_fee_clamps_to_the_band() {
    // Below the floor.
    assert_eq!(dynamic_priority_fee(1_000, "warning", 10_000, 200_000), 10_000);
    // Above the ceiling.
    assert_eq!(dynamic_priority_fee(150_000, "emergency", 10_000, 200_000), 200_000);
}

#[test]
fn scripted_source_replays_and_ends() {
    let mut src = ScriptedPythSource::new(vec![(210_000_000, 25_000), (208_000_000, 30_000)]);

    let first = src.next().expect("first observation");
    assert_eq!(first.slot, 1);
    assert_eq!(first.price_micro_usdc, 210_000_000);
    assert_eq!(first.observed_priority_fee, 25_000);
    assert_eq!(first.source, "scripted");

    let second = src.next().expect("second observation");
    assert_eq!(second.slot, 2);
    assert_eq!(second.price_micro_usdc, 208_000_000);

    assert!(src.next().is_none());
    assert!(src.next().is_none());
}

#[test]
fn fee_percentile_picks_the_configured_rank() {
    let fees = vec![5, 1, 9, 3];
    // Sorted: [1, 3, 5, 9]; rank = 4 * 7500 / 10000 = 3.
    assert_eq!(fee_percentile(&fees, 7_500, 25_000), 9);
    let fees = vec![8, 2, 6, 4, 10];
    // Sorted: [2, 4, 6, 8, 10]; rank = 5 * 7500 / 10000 = 3.
    assert_eq!(fee_percentile(&fees, 7_500, 25_000), 8);
}

#[test]
fn fee_percentile_defaults_when_empty() {
    let fees: Vec<u64> = vec![];
    assert_eq!(fee_percentile(&fees, 7_500, 25_000), 25_000);
}

#[test]
fn sort_orders_the_samples() {
    let fees = vec![5, 1, 9, 3, 3];
    assert_eq!(sort_fees(&fees), vec![1, 3, 3, 5, 9]);
}

#[test]
fn pyth_conversion_shifts_the_exponent() {
    // 17012345678 * 10^-8 quote units == 170.12345678 == 170_123_456 micro.
    assert_eq!(pyth_price_to_micro(17_012_345_678, -8), Some(170_123_456));
    // 170 * 10^0 == 170_000_000 micro.
    assert_eq!(pyth_price_to_micro(170, 0), Some(170_000_000));
    // Non-positive prices denote nothing.
    assert_eq!(pyth_price_to_micro(0, -8), None);
    assert_eq!(pyth_price_to_micro(-5, -8), None);
    // A price that vanishes after scaling denotes nothing.
    assert_eq!(pyth_price_to_micro(1, -12), None);
}
