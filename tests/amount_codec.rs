use cosm_bank::amount::{amount_from_text, amount_to_text, Coin, WireCoin};
use cosm_bank::error::{ChainError, ErrorKind};

#[test]
fn amount_text_of_small_values() {
    assert_eq!(amount_to_text(0), "0");
    assert_eq!(amount_to_text(7), "7");
    assert_eq!(amount_to_text(100), "100");
    assert_eq!(amount_to_text(1234567890), "1234567890");
}

#[test]
fn amount_text_of_largest_value() {
    assert_eq!(amount_to_text(u128::MAX), "340282366920938463463374607431768211455");
}

#[test]
fn amount_parse_accepts_digits() {
    assert_eq!(amount_from_text("0"), Some(0));
    assert_eq!(amount_from_text("100"), Some(100));
    assert_eq!(amount_from_text("007"), Some(7));
    assert_eq!(
        amount_from_text("340282366920938463463374607431768211455"),
        Some(u128::MAX)
    );
}

#[test]
fn amount_parse_rejects_malformed() {
    assert_eq!(amount_from_text(""), None);
    assert_eq!(amount_from_text("abc"), None);
    assert_eq!(amount_from_text("12a"), None);
    assert_eq!(amount_from_text("-5"), None);
    assert_eq!(amount_from_text("+5"), None);
    assert_eq!(amount_from_text("1 0"), None);
}

#[test]
fn amount_parse_rejects_overflow() {
    assert_eq!(amount_from_text("340282366920938463463374607431768211456"), None);
    assert_eq!(amount_from_text("99999999999999999999999999999999999999999"), None);
    assert_eq!(amount_from_text("9999999999999999999999999999999999999999x"), None);
}

#[test]
fn coin_round_trip_through_wire() {
    for amount in [0u128, 1, 9, 10, 100, 65535, 1 << 64, u128::MAX] {
        let c = Coin::new(amount, "utoken").unwrap();
        let w = c.to_wire();
        assert_eq!(w.denom, "utoken");
        assert_eq!(Coin::from_wire(&w), Ok(c));
    }
}

#[test]
fn coin_to_wire_writes_decimal() {
    let c = Coin::new(100, "utoken").unwrap();
    assert_eq!(c.to_wire(), WireCoin { denom: "utoken".to_string(), amount: "100".to_string() });
}

#[test]
fn coin_new_rejects_empty_denom() {
    let e = Coin::new(5, "").unwrap_err();
    assert_eq!(e, ChainError::EmptyDenom);
    assert_eq!(e.kind(), ErrorKind::Validation);
}

#[test]
fn coin_from_wire_rejects_malformed_amount() {
    let w = WireCoin { denom: "utoken".to_string(), amount: "1.5".to_string() };
    assert_eq!(Coin::from_wire(&w), Err(ChainError::MalformedAmount));
}
