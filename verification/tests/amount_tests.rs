//! Tests of the fee/amount engine: exact base-unit conversion, truncation
//! toward zero, overflow, and the decimal and hex parsers.

use tokenbridge::amount::{bridge_fee_amount, to_base_units, Amount};
use tokenbridge::error::BridgeError;
use tokenbridge::parse::{parse_address, parse_dec_u128, parse_tx_hash};

/// One whole unit under eighteen decimals is exactly `10^18` base units.
#[test]
fn one_unit_eighteen_decimals() {
    let one = Amount { mantissa: 1, scale: 0 };
    assert_eq!(to_base_units(one, 18).unwrap(), 1_000_000_000_000_000_000);
}

/// `1.001` under eighteen decimals is exactly `1.001 * 10^18`.
#[test]
fn fractional_amount_exact() {
    let a = Amount { mantissa: 1001, scale: 3 };
    assert_eq!(to_base_units(a, 18).unwrap(), 1_001_000_000_000_000_000);
}

/// `100.0` under six decimals is exactly `10^8`.
#[test]
fn hundred_units_six_decimals() {
    let a = Amount { mantissa: 1000, scale: 1 };
    assert_eq!(to_base_units(a, 6).unwrap(), 100_000_000);
}

/// A fee of `0.001 * 100.0` converts to `100_000` base units under six
/// decimals.
#[test]
fn fee_point_one_six_decimals() {
    let rate = Amount { mantissa: 1, scale: 3 };
    let amount = Amount { mantissa: 1000, scale: 1 };
    let fee = bridge_fee_amount(rate, amount).unwrap();
    assert_eq!((fee.mantissa, fee.scale), (1000, 4));
    assert_eq!(to_base_units(fee, 6).unwrap(), 100_000);
}

/// Conversion rounds toward zero: a value finer than the token's decimals
/// truncates.
#[test]
fn conversion_truncates_toward_zero() {
    let a = Amount { mantissa: 1_234_567, scale: 7 };
    // 0.1234567 under six decimals floors to 123456.
    assert_eq!(to_base_units(a, 6).unwrap(), 123_456);
    let tiny = Amount { mantissa: 1, scale: 9 };
    assert_eq!(to_base_units(tiny, 6).unwrap(), 0);
}

/// A result beyond 128 bits is an overflow error.
#[test]
fn conversion_overflow() {
    let a = Amount { mantissa: u128::MAX, scale: 0 };
    assert_eq!(to_base_units(a, 1).unwrap_err(), BridgeError::AmountOverflow);
    let b = Amount { mantissa: u128::MAX, scale: 0 };
    let r = bridge_fee_amount(b, Amount { mantissa: 2, scale: 0 });
    assert_eq!(r.unwrap_err(), BridgeError::AmountOverflow);
}

/// The decimal parser accepts exactly the 128-bit range.
#[test]
fn decimal_parser_range() {
    assert_eq!(parse_dec_u128("0"), Some(0));
    assert_eq!(
        parse_dec_u128("340282366920938463463374607431768211455"),
        Some(u128::MAX)
    );
    assert_eq!(parse_dec_u128("340282366920938463463374607431768211456"), None);
    assert_eq!(parse_dec_u128(""), None);
    assert_eq!(parse_dec_u128("12a4"), None);
}

/// The address parser takes 40 hex digits with an optional `0x` prefix.
#[test]
fn address_parser() {
    let with_prefix = parse_address("0x3535353535353535353535353535353535353535").unwrap();
    assert_eq!(with_prefix, vec![0x35u8; 20]);
    let bare = parse_address("4444444444444444444444444444444444444444").unwrap();
    assert_eq!(bare, vec![0x44u8; 20]);
    assert!(parse_address("0x35353535").is_none());
    assert!(parse_address("0xzz35353535353535353535353535353535353535").is_none());
}

/// The transaction-hash parser demands the `0x` prefix and 64 hex digits.
#[test]
fn tx_hash_parser() {
    let h = format!("0x{}", "ab".repeat(32));
    assert_eq!(parse_tx_hash(&h).unwrap(), vec![0xabu8; 32]);
    assert!(parse_tx_hash(&"ab".repeat(33)).is_none());
    assert!(parse_tx_hash("0xab").is_none());
}
