use hipocast::text::{
    parse_usize_chars, seconds_from_millis, str_equal, thousandths_to_decimal,
    to_chars, u64_to_decimal, IntParseFailure,
};

#[test]
fn decimal_rendering_matches_to_string() {
    for n in [0u64, 7, 10, 42, 1000, 6_000_000, u64::MAX] {
        assert_eq!(u64_to_decimal(n), n.to_string());
    }
}

#[test]
fn seconds_with_three_decimals_match_float_formatting() {
    for ms in [0i32, 5, -5, 250, -1500, 1000, 123456, -999, i32::MIN, i32::MAX] {
        let expected = format!("{:.3}", ms as f64 / 1000.0);
        assert_eq!(seconds_from_millis(ms), expected, "offset {}", ms);
    }
}

#[test]
fn thousandths_match_shortest_float_display() {
    for n in [0u32, 500, 700, 800, 1000, 1250, 1999, 2000, 10, 1005] {
        let expected = format!("{}", n as f64 / 1000.0);
        assert_eq!(thousandths_to_decimal(n), expected, "value {}", n);
    }
    assert_eq!(thousandths_to_decimal(700), format!("{}", 0.7f32));
}

#[test]
fn unsigned_parsing_matches_std() {
    let cases = ["", "+", "0", "12", "+12", "-1", "1x", "00042", "18446744073709551615",
        "18446744073709551616", "99999999999999999999x", "x9"];
    for c in cases {
        let chars = to_chars(c);
        let ours = parse_usize_chars(&chars, 0);
        match c.parse::<usize>() {
            Ok(v) => assert_eq!(ours, Ok(v), "{:?}", c),
            Err(e) => {
                let ours = ours.expect_err(c);
                assert_eq!(ours.message(), e.to_string(), "{:?}", c);
            }
        }
    }
    assert_eq!(parse_usize_chars(&to_chars(""), 0), Err(IntParseFailure::Empty));
}

#[test]
fn string_equality() {
    assert!(str_equal("abc", "abc"));
    assert!(!str_equal("abc", "abd"));
    assert!(!str_equal("", "a"));
}
