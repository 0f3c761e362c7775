use wallet_connect::balance::format_eth;
use wallet_connect::hex::parse_hex_u128;

#[test]
fn parses_one_eth_in_wei() {
    assert_eq!(parse_hex_u128("de0b6b3a7640000"), Some(1_000_000_000_000_000_000u128));
}

#[test]
fn parses_mixed_case_digits() {
    assert_eq!(parse_hex_u128("DE0B6B3A7640000"), Some(1_000_000_000_000_000_000u128));
    assert_eq!(parse_hex_u128("dE0b6B3a7640000"), Some(1_000_000_000_000_000_000u128));
}

#[test]
fn parses_zero() {
    assert_eq!(parse_hex_u128("0"), Some(0));
    assert_eq!(parse_hex_u128("000"), Some(0));
}

#[test]
fn rejects_empty_digit_string() {
    assert_eq!(parse_hex_u128(""), None);
}

#[test]
fn rejects_non_hex_character() {
    assert_eq!(parse_hex_u128("12g4"), None);
    assert_eq!(parse_hex_u128("nope"), None);
    assert_eq!(parse_hex_u128(" 12"), None);
}

#[test]
fn parses_largest_value() {
    assert_eq!(parse_hex_u128("ffffffffffffffffffffffffffffffff"), Some(u128::MAX));
}

#[test]
fn rejects_value_too_large() {
    assert_eq!(parse_hex_u128("100000000000000000000000000000000"), None);
    assert_eq!(parse_hex_u128("fffffffffffffffffffffffffffffffff"), None);
}

#[test]
fn formats_one_eth() {
    assert_eq!(format_eth(1_000_000_000_000_000_000), "1.0000");
}

#[test]
fn formats_zero() {
    assert_eq!(format_eth(0), "0.0000");
}

#[test]
fn formats_rounding_half_up() {
    assert_eq!(format_eth(49_999_999_999_999), "0.0000");
    assert_eq!(format_eth(50_000_000_000_000), "0.0001");
}

#[test]
fn formats_rounding_carry_into_whole_part() {
    assert_eq!(format_eth(999_949_999_999_999_999), "0.9999");
    assert_eq!(format_eth(999_950_000_000_000_000), "1.0000");
}

#[test]
fn formats_exact_fraction_digits() {
    assert_eq!(format_eth(1_234_500_000_000_000_000), "1.2345");
    assert_eq!(format_eth(10_000_000_000_000_000), "0.0100");
}

#[test]
fn formats_largest_wei() {
    assert_eq!(format_eth(u128::MAX), "340282366920938463463.3746");
}

#[test]
fn formats_dust_as_zero() {
    assert_eq!(format_eth(15), "0.0000");
}

#[test]
fn format_of_parsed_hex_round_trip() {
    let wei = parse_hex_u128("de0b6b3a7640000").unwrap();
    assert_eq!(format_eth(wei), "1.0000");
    let wei = parse_hex_u128("1121d33597384000").unwrap();
    assert_eq!(format_eth(wei), "1.2345");
}
