use aegis::errors::AegisError;
use aegis::numtext::{fixed_dec, parse_decimal_micro, parse_i64, parse_u64, u64_to_dec, u64_to_hex16};
use aegis::text::{escape_json, sanitize_csv_field, str_eq};
use aegis::trace::{proof_token_text, tx_id_text};

#[test]
fn sanitize_csv_field_replaces_commas() {
    assert_eq!(sanitize_csv_field("a,b,c"), "a b c");
    assert_eq!(sanitize_csv_field("no commas"), "no commas");
    assert_eq!(sanitize_csv_field(""), "");
}

#[test]
fn escape_json_escapes_quotes_and_backslashes() {
    assert_eq!(escape_json(r#"a"b\c"#), r#"a\"b\\c"#);
    assert_eq!(escape_json("plain"), "plain");
    assert_eq!(escape_json(""), "");
}

#[test]
fn str_eq_compares_by_characters() {
    assert!(str_eq("emergency", "emergency"));
    assert!(!str_eq("emergency", "warning"));
    assert!(!str_eq("emergency", "emergenc"));
    assert!(str_eq("", ""));
}

#[test]
fn parse_u64_accepts_digit_strings_only() {
    assert_eq!(parse_u64("42000000"), Some(42_000_000));
    assert_eq!(parse_u64("0"), Some(0));
    assert_eq!(parse_u64(""), None);
    assert_eq!(parse_u64("12a"), None);
    assert_eq!(parse_u64("18446744073709551615"), Some(u64::MAX));
    assert_eq!(parse_u64("18446744073709551616"), None);
}

#[test]
fn parse_i64_handles_the_sign() {
    assert_eq!(parse_i64("-8"), Some(-8));
    assert_eq!(parse_i64("8"), Some(8));
    assert_eq!(parse_i64("-"), None);
    assert_eq!(parse_i64("x"), None);
}

#[test]
fn parse_decimal_micro_reads_fixed_point() {
    assert_eq!(parse_decimal_micro("210.5"), Some(210_500_000));
    assert_eq!(parse_decimal_micro("210"), Some(210_000_000));
    assert_eq!(parse_decimal_micro("0.1234567"), Some(123_456));
    assert_eq!(parse_decimal_micro("1."), Some(1_000_000));
    assert_eq!(parse_decimal_micro("."), None);
    assert_eq!(parse_decimal_micro(""), None);
    assert_eq!(parse_decimal_micro("1.2x"), None);
}

#[test]
fn decimal_renderings_are_exact() {
    assert_eq!(u64_to_dec(0), "0");
    assert_eq!(u64_to_dec(12_345), "12345");
    assert_eq!(fixed_dec(1_234_560, 6), "1.234560");
    assert_eq!(fixed_dec(9_000, 4), "0.9000");
    assert_eq!(fixed_dec(2_982_601_491, 9), "2.982601491");
    assert_eq!(fixed_dec(0, 6), "0.000000");
}

#[test]
fn error_texts_carry_the_kind_prefix() {
    assert_eq!(AegisError::Config("x".to_string()).text(), "config error: x");
    assert_eq!(
        AegisError::Execution("y".to_string()).text(),
        "execution error: y"
    );
    assert_eq!(AegisError::Io("z".to_string()).text(), "io error: z");
    assert_eq!(AegisError::Data("w".to_string()).text(), "data error: w");
}

#[test]
fn fingerprint_texts_are_fixed_width() {
    assert_eq!(u64_to_hex16(255), "00000000000000ff");
    assert_eq!(proof_token_text(255), "proof-0x00000000000000ff");
    assert_eq!(tx_id_text(&Some(255)), "tx-0x00000000000000ff");
    assert_eq!(tx_id_text(&None), "none");
}
