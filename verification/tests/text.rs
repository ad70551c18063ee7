use virtual_server::number::Float;
use virtual_server::text::{
    chars_of, join_strings, last_segment_of, push_decimal, push_signed_decimal,
    replace, starts_with_underscores, trimmed,
};

#[test]
fn replace_puts_text_for_each_character() {
    assert_eq!(replace("a_b__c", '_', "-"), "a-b--c");
    assert_eq!(replace("say \"hi\"", '"', "\"\""), "say \"\"hi\"\"");
    assert_eq!(replace("O'Brien", '\'', "''"), "O''Brien");
    assert_eq!(replace("", 'x', "y"), "");
    assert_eq!(replace("xxx", 'x', ""), "");
    assert_eq!(replace("héllo", 'é', "e"), "hello");
}

#[test]
fn join_puts_the_separator_between_neighbours() {
    let parts = vec!["a".to_string(), "".to_string(), "c".to_string()];
    assert_eq!(join_strings(&parts, ", "), "a, , c");
    assert_eq!(join_strings(&Vec::new(), ", "), "");
    assert_eq!(join_strings(&vec!["x".to_string()], ", "), "x");
}

#[test]
fn decimal_numerals_match_the_standard_ones() {
    for n in [0u64, 1, 9, 10, 11, 99, 100, 12345, u32::MAX as u64, u64::MAX] {
        let mut out = String::from("n=");
        push_decimal(&mut out, n);
        assert_eq!(out, format!("n={}", n));
    }
    for n in [0i64, -1, 1, -10, 42, i64::MIN, i64::MAX] {
        let mut out = String::new();
        push_signed_decimal(&mut out, n);
        assert_eq!(out, n.to_string());
    }
}

#[test]
fn trimmed_removes_what_the_standard_trim_removes() {
    assert_eq!(trimmed("  a b \t\n"), "a b");
    assert_eq!(trimmed(""), "");
    assert_eq!(trimmed(" \u{a0}\u{3000} "), "");
    assert_eq!(trimmed("x"), "x");
    let mut code: u32 = 0;
    while code <= 0x10ffff {
        if let Some(c) = char::from_u32(code) {
            let s = format!("{}a{}b{}", c, c, c);
            assert_eq!(trimmed(&s), s.trim(), "character {:x}", code);
        }
        code += 1;
    }
}

#[test]
fn last_segment_is_what_follows_the_last_separator() {
    for s in ["a_b_c", "abc", "abc_", "_", "", "__x", "a__"] {
        assert_eq!(last_segment_of(s, '_'), *s.split('_').last().unwrap());
    }
    assert_eq!(last_segment_of("ns_price", '_'), "price");
}

#[test]
fn synthetic_prefix_is_two_underscores() {
    assert!(starts_with_underscores("__ROW_PATH_0__"));
    assert!(starts_with_underscores("__"));
    assert!(!starts_with_underscores("_x_"));
    assert!(!starts_with_underscores("_"));
    assert!(!starts_with_underscores(""));
    assert!(!starts_with_underscores("a__"));
}

#[test]
fn chars_are_given_one_by_one() {
    assert_eq!(chars_of("héé!"), vec!['h', 'é', 'é', '!']);
}

#[test]
fn numerals_are_told_from_other_text() {
    for good in [
        "0", "12", "-3", "1.5", "-0.25", "NaN", "inf", "-inf", "100000000000000000000", "-0",
    ] {
        let parsed = Float::parse(good);
        assert_eq!(parsed.map(|f| f.as_str().to_string()), Some(good.to_string()));
    }
    for bad in [
        "", "-", ".", "1.", ".5", "1..2", "1.2.3", "--1", "1e5", "+1", " 1", "1 ", "abc", "nan",
        "Inf", "-NaN", "1,5", "0x10", "DROP TABLE t", "-.", "1.-2",
    ] {
        assert!(Float::parse(bad).is_none(), "{:?}", bad);
    }
}

#[test]
fn floats_as_the_standard_library_prints_them_are_numerals() {
    for x in [
        0.0f64,
        -0.0,
        1.0,
        -1.5,
        0.1,
        1e21,
        1e-7,
        1e300,
        5e-324,
        f64::MAX,
        f64::MIN,
        f64::NAN,
        f64::INFINITY,
        f64::NEG_INFINITY,
        123456.789,
    ] {
        let text = x.to_string();
        let parsed = Float::parse(&text).expect(&text);
        assert_eq!(parsed.as_str(), text);
        let back: f64 = parsed.as_str().parse().unwrap();
        assert!(back == x || (back.is_nan() && x.is_nan()));
    }
}

#[test]
fn integers_widen_to_the_same_numbers() {
    for n in [0i64, 7, -7, 9007199254740993, i64::MIN, i64::MAX] {
        let f = Float::from_i64(n);
        assert_eq!(f.as_str(), n.to_string());
        let back: f64 = f.as_str().parse().unwrap();
        assert_eq!(back, n as f64);
    }
}
