use std::num::NonZeroU64;

use orac::decimal::{i32_to_string, i64_to_string, parse_id, parse_u64, u64_to_string, IntError};

#[test]
fn renders_unsigned_numbers() {
    assert_eq!(u64_to_string(0), "0");
    assert_eq!(u64_to_string(7), "7");
    assert_eq!(u64_to_string(10), "10");
    assert_eq!(u64_to_string(1234567890), "1234567890");
    assert_eq!(u64_to_string(u64::MAX), "18446744073709551615");
}

#[test]
fn renders_signed_numbers() {
    assert_eq!(i32_to_string(0), "0");
    assert_eq!(i32_to_string(-42), "-42");
    assert_eq!(i32_to_string(i32::MIN), "-2147483648");
    assert_eq!(i32_to_string(i32::MAX), "2147483647");
    assert_eq!(i64_to_string(i64::MIN), "-9223372036854775808");
    assert_eq!(i64_to_string(-1), "-1");
}

#[test]
fn renders_as_std_does() {
    for n in [0u64, 1, 9, 99, 100, 65535, 1 << 40, u64::MAX - 1] {
        assert_eq!(u64_to_string(n), n.to_string());
    }
    for i in [i32::MIN, -1000, -1, 0, 1, 31337, i32::MAX] {
        assert_eq!(i32_to_string(i), i.to_string());
    }
}

#[test]
fn parses_numbers() {
    assert_eq!(parse_u64("42"), Ok(42));
    assert_eq!(parse_u64("+7"), Ok(7));
    assert_eq!(parse_u64("007"), Ok(7));
    assert_eq!(parse_u64("18446744073709551615"), Ok(u64::MAX));
}

#[test]
fn refuses_what_is_no_number() {
    assert_eq!(parse_u64(""), Err(IntError::Empty));
    assert_eq!(parse_u64("+"), Err(IntError::InvalidDigit));
    assert_eq!(parse_u64("-1"), Err(IntError::InvalidDigit));
    assert_eq!(parse_u64("12a"), Err(IntError::InvalidDigit));
    assert_eq!(parse_u64(" 1"), Err(IntError::InvalidDigit));
    assert_eq!(parse_u64("18446744073709551616"), Err(IntError::PosOverflow));
    assert_eq!(parse_u64("99999999999999999999x"), Err(IntError::PosOverflow));
    assert_eq!(parse_u64("1x9999999999999999999"), Err(IntError::InvalidDigit));
}

#[test]
fn errors_read_as_std_errors() {
    for s in ["", "+", "-1", "12a", "٣", "18446744073709551616", "99999999999999999999x", "1x9999999999999999999"] {
        let ours = parse_u64(s).unwrap_err().message();
        let std_error = s.parse::<u64>().unwrap_err().to_string();
        assert_eq!(ours, std_error, "for {:?}", s);
    }
    for s in ["", "0", "+0", "000", "abc", "18446744073709551616"] {
        let ours = parse_id(s).unwrap_err().message();
        let std_error = s.parse::<NonZeroU64>().unwrap_err().to_string();
        assert_eq!(ours, std_error, "for {:?}", s);
    }
}

#[test]
fn parses_as_std_does() {
    for s in ["0", "1", "+1", "0009", "123456789012345678", "18446744073709551615"] {
        assert_eq!(parse_u64(s), Ok(s.parse::<u64>().unwrap()));
    }
}

#[test]
fn ids_refuse_zero() {
    assert_eq!(parse_id("0"), Err(IntError::Zero));
    assert_eq!(parse_id("+0"), Err(IntError::Zero));
    assert_eq!(parse_id("1234567890123"), Ok(1234567890123));
    assert_eq!(parse_id("x"), Err(IntError::InvalidDigit));
}

#[test]
fn rendered_numbers_parse_back() {
    for n in [0u64, 5, 10, 4096, 1 << 63, u64::MAX] {
        assert_eq!(parse_u64(&u64_to_string(n)), Ok(n));
    }
}

#[test]
fn shortest_texts_render_back() {
    for s in ["0", "8", "10", "90210", "18446744073709551615"] {
        assert_eq!(u64_to_string(parse_u64(s).unwrap()), s);
    }
}
