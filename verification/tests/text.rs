use nexrad_workbench::text::{
    byte_len, decimal_text, padded_text, parse_i32, parse_i64, parse_u32, round_div, same_text,
    skip_bytes, take_bytes, trim, white_space,
};

#[test]
fn numbers_are_written() {
    assert_eq!(decimal_text(0), "0");
    assert_eq!(decimal_text(u64::MAX), u64::MAX.to_string());
    assert_eq!(padded_text(7, 3), "007");
    assert_eq!(padded_text(1234, 3), "1234");
    assert_eq!(round_div(5, 2), 2);
    assert_eq!(round_div(7, 2), 4);
    assert_eq!(round_div(u64::MAX, 2), 9_223_372_036_854_775_808);
}

#[test]
fn numbers_are_read_as_the_standard_library_reads_them() {
    for s in [
        "0", "-0", "+5", "-5", "007", "", "+", "-", "1a", " 1", "2147483647", "2147483648",
        "-2147483648", "-2147483649", "4294967295", "4294967296", "9223372036854775807",
        "9223372036854775808", "-9223372036854775808", "\u{661}",
    ] {
        assert_eq!(parse_i32(s), s.parse::<i32>().ok());
        assert_eq!(parse_u32(s), s.parse::<u32>().ok());
        assert_eq!(parse_i64(s), s.parse::<i64>().ok());
    }
}

#[test]
fn white_space_is_that_of_unicode() {
    for code in 0..0x11_0000u32 {
        if let Some(c) = char::from_u32(code) {
            assert_eq!(white_space(c), c.is_whitespace());
        }
    }
    assert_eq!(trim(" \u{a0}x y\u{2003}"), "x y");
    assert_eq!(trim("\t\n"), "");
}

#[test]
fn texts_are_cut_by_bytes() {
    assert_eq!(byte_len("a\u{e9}\u{1f600}"), 7);
    assert_eq!(take_bytes("a\u{e9}b", 3), "a\u{e9}");
    assert_eq!(skip_bytes("a\u{e9}b", 3), "b");
    assert!(same_text("abc", "abc") && !same_text("abc", "abd") && !same_text("ab", "abc"));
}
