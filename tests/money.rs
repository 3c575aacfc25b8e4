use invoice_cli::money::{add_decimals, cents_to_decimal, decimal_to_cents, subtotal, Decimal, MoneyError};

#[test]
fn three_fourteen_is_three_hundred_fourteen_cents() {
    assert_eq!(decimal_to_cents(Decimal { mantissa: 314, scale: 2 }), Ok(314));
    assert_eq!(cents_to_decimal(314), Decimal { mantissa: 314, scale: 2 });
}

#[test]
fn cents_round_trip_for_two_place_values() {
    for c in [-100_000i64, -1, 0, 1, 99, 314, 123_456_789] {
        assert_eq!(decimal_to_cents(cents_to_decimal(c)), Ok(c));
    }
    assert_eq!(decimal_to_cents(Decimal { mantissa: 7, scale: 0 }), Ok(700));
    assert_eq!(decimal_to_cents(Decimal { mantissa: 25, scale: 1 }), Ok(250));
}

#[test]
fn rounding_is_half_away_from_zero() {
    assert_eq!(decimal_to_cents(Decimal { mantissa: 125, scale: 3 }), Ok(13));
    assert_eq!(decimal_to_cents(Decimal { mantissa: -125, scale: 3 }), Ok(-13));
    assert_eq!(decimal_to_cents(Decimal { mantissa: 3145, scale: 3 }), Ok(315));
    assert_eq!(decimal_to_cents(Decimal { mantissa: 3144, scale: 3 }), Ok(314));
    assert_eq!(decimal_to_cents(Decimal { mantissa: 1, scale: 28 }), Ok(0));
}

#[test]
fn cents_beyond_i64_are_refused() {
    let big = Decimal { mantissa: i64::MAX as i128, scale: 0 };
    assert_eq!(decimal_to_cents(big), Err(MoneyError::Overflow));
    let edge = Decimal { mantissa: i64::MAX as i128, scale: 2 };
    assert_eq!(decimal_to_cents(edge), Ok(i64::MAX));
}

#[test]
fn subtotal_and_sum_are_exact() {
    let rate = Decimal { mantissa: 1000, scale: 2 };
    assert_eq!(subtotal(rate, 3), Ok(Decimal { mantissa: 3000, scale: 2 }));
    assert_eq!(subtotal(rate, -2), Ok(Decimal { mantissa: -2000, scale: 2 }));
    let a = Decimal { mantissa: 15, scale: 1 };
    let b = Decimal { mantissa: 225, scale: 2 };
    assert_eq!(add_decimals(a, b), Ok(Decimal { mantissa: 375, scale: 2 }));
    let huge = Decimal { mantissa: 79228162514264337593543950335, scale: 0 };
    assert_eq!(subtotal(huge, 2), Err(MoneyError::Overflow));
    assert_eq!(add_decimals(huge, Decimal { mantissa: 1, scale: 0 }), Err(MoneyError::Overflow));
}
