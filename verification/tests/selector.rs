use compute::draw;
use compute::literal::digits_only;
use compute::precision::{select, Coordinates, RenderError};
use num::BigUint;
use std::str::FromStr;

const BLACK: [u8; 4] = [0, 0, 0, 255];
const WHITE: [u8; 4] = [255, 255, 255, 255];

#[test]
fn small_numbers_take_the_fast_renderer() {
    assert_eq!(select("2", "3"), Ok(Coordinates::Fixed(2, 3)));
    assert_eq!(select("0", "0"), Ok(Coordinates::Fixed(0, 0)));
    assert_eq!(select("007", "10"), Ok(Coordinates::Fixed(7, 10)));
    assert_eq!(
        select("18446744073709551615", "18446744073709551614"),
        Ok(Coordinates::Fixed(u64::MAX, u64::MAX - 1))
    );
    assert_eq!(
        select("000000000000000000000000018446744073709551615", "1"),
        Ok(Coordinates::Fixed(u64::MAX, 1))
    );
}

#[test]
fn plus_sign_is_refused() {
    assert_eq!(select("+7", "+0"), Err(RenderError::InvalidCoordinate));
    assert_eq!(select("+7", "0"), Err(RenderError::InvalidCoordinate));
    assert_eq!(select("7", "+0"), Err(RenderError::InvalidCoordinate));
    assert_eq!(select("+18446744073709551616", "1"), Err(RenderError::InvalidCoordinate));
    assert_eq!(select("1", "+18446744073709551616"), Err(RenderError::InvalidCoordinate));
    assert_eq!(select("+", "1"), Err(RenderError::InvalidCoordinate));
    assert_eq!(select("++1", "1"), Err(RenderError::InvalidCoordinate));
    assert_eq!(select("1+", "1"), Err(RenderError::InvalidCoordinate));
    assert_eq!(draw(1, 1, "+7", "3"), Err(RenderError::InvalidCoordinate));
}

#[test]
fn number_past_64_bits_takes_the_big_renderer() {
    let first_big = BigUint::from_str("18446744073709551616").unwrap();
    assert_eq!(
        select("18446744073709551616", "5"),
        Ok(Coordinates::Big(BigUint::from(u64::MAX) + 1u32, BigUint::from(5u32)))
    );
    assert_eq!(
        select("5", "18446744073709551616"),
        Ok(Coordinates::Big(BigUint::from(5u32), BigUint::from(u64::MAX) + 1u32))
    );
    assert_eq!(first_big, BigUint::from(u64::MAX) + 1u32);
    match select("340282366920938463463374607431768211456", "1") {
        Ok(Coordinates::Big(x, y)) => {
            assert_eq!(x, BigUint::from(u128::MAX) + 1u32);
            assert_eq!(y, BigUint::from(1u32));
        }
        other => panic!("{:?}", other),
    }
}

#[test]
fn separators_are_refused() {
    assert_eq!(select("1_000", "5"), Err(RenderError::InvalidCoordinate));
    assert_eq!(select("1_0", "5"), Err(RenderError::InvalidCoordinate));
    assert_eq!(select("5", "1_0"), Err(RenderError::InvalidCoordinate));
    assert_eq!(select("12_", "3__4"), Err(RenderError::InvalidCoordinate));
    assert_eq!(select("18_446_744_073_709_551_616", "5"), Err(RenderError::InvalidCoordinate));
    assert_eq!(select("_1", "5"), Err(RenderError::InvalidCoordinate));
    assert_eq!(select("+_1", "5"), Err(RenderError::InvalidCoordinate));
    assert_eq!(select("_", "5"), Err(RenderError::InvalidCoordinate));
    assert_eq!(draw(1, 1, "1_0", "5"), Err(RenderError::InvalidCoordinate));
    assert_eq!(draw(2, 1, "1_000", "5"), Err(RenderError::InvalidCoordinate));
}

#[test]
fn digits_only_takes_decimal_digits_and_nothing_else() {
    for good in ["0", "7", "007", "1234567890", "18446744073709551616",
        "340282366920938463463374607431768211456"]
    {
        assert!(digits_only(good));
    }
    for bad in ["", "+", "-", "_", "+7", "-7", "1_0", "1 ", " 1", "1.0", "0x1f", "12a", "a12",
        "1e3", "\u{ff11}", "1\u{0661}", "\u{e9}", "/", ":", "1/", "1:"]
    {
        assert!(!digits_only(bad));
    }
}

#[test]
fn a_large_number_is_never_an_error() {
    let mut digits = String::from("1");
    for _ in 0..200 {
        digits.push('0');
        assert!(select(&digits, "3").is_ok());
        assert!(select("3", &digits).is_ok());
    }
    // gcd(10^200, 3) = 1, gcd(10^200 + 1, 3) = 1, gcd(10^200 + 2, 3) = 3.
    assert_eq!(draw(3, 1, &digits, "3").unwrap(), [BLACK, BLACK, WHITE].concat());
}

#[test]
fn both_coordinates_are_held_the_same_way() {
    assert!(matches!(select("1", "2"), Ok(Coordinates::Fixed(1, 2))));
    assert!(matches!(select("18446744073709551616", "2"), Ok(Coordinates::Big(_, _))));
    assert!(matches!(select("2", "18446744073709551616"), Ok(Coordinates::Big(_, _))));
    assert!(matches!(
        select("18446744073709551616", "18446744073709551617"),
        Ok(Coordinates::Big(_, _))
    ));
}

#[test]
fn unreadable_coordinates_are_refused() {
    for bad in [
        "", "abc", "-1", "1.0", " 1", "1 ", "0x1f", "1e3", "\u{ff11}", "12a", "+", "_", "+1", "1_0",
    ] {
        assert_eq!(select(bad, "1"), Err(RenderError::InvalidCoordinate));
        assert_eq!(select("1", bad), Err(RenderError::InvalidCoordinate));
        assert_eq!(select(bad, "18446744073709551616"), Err(RenderError::InvalidCoordinate));
        assert_eq!(select(bad, bad), Err(RenderError::InvalidCoordinate));
    }
}

#[test]
fn selected_coordinates_render_their_window() {
    let fixed = select("2", "3").unwrap();
    assert_eq!(fixed.render(2, 2), [BLACK, WHITE, WHITE, BLACK].concat());
    assert_eq!(fixed.render(2, 2), draw(2, 2, "2", "3").unwrap());
    let big = Coordinates::Big(BigUint::from(2u32), BigUint::from(3u32));
    assert_eq!(big.render(2, 2), fixed.render(2, 2));
    let far = select("18446744073709551616", "3").unwrap();
    assert_eq!(far.render(3, 1), [BLACK, BLACK, WHITE].concat());
    assert!(far.render(0, 1).is_empty());
}
