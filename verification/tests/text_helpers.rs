//! The text helpers the console output is built from.

use rusty_jam::text::{
    ascii_lowercase, display_bar, parse_u64, quarters_to_dec, quarters_to_fixed2, split_spaces,
    str_eq, trim_str, u64_to_dec,
};

#[test]
fn decimal_rendering_is_exact() {
    assert_eq!(u64_to_dec(0), "0");
    assert_eq!(u64_to_dec(7), "7");
    assert_eq!(u64_to_dec(1234), "1234");
    assert_eq!(u64_to_dec(1000000), "1000000");
    assert_eq!(u64_to_dec(u64::MAX), u64::MAX.to_string());
}

#[test]
fn quarter_points_render_like_the_binary_fractions() {
    assert_eq!(quarters_to_dec(8), "2");
    assert_eq!(quarters_to_dec(10), "2.5");
    assert_eq!(quarters_to_dec(9), "2.25");
    assert_eq!(quarters_to_dec(11), "2.75");
    assert_eq!(quarters_to_dec(2), "0.5");
    assert_eq!(quarters_to_fixed2(8), "2.00");
    assert_eq!(quarters_to_fixed2(10), "2.50");
    assert_eq!(quarters_to_fixed2(3), "0.75");
}

#[test]
fn progress_bar_fills_in_proportion() {
    // full health: 18 of the 20-wide bar's interior tiles, 2 trailing blanks
    assert_eq!(display_bar(20, 40, 40), "[==================  ] 10.00/10.00");
    // half health: 9 tiles
    assert_eq!(display_bar(20, 20, 40), "[=========           ] 5.00/10.00");
    assert_eq!(display_bar(20, 0, 40), "[                    ] 0.00/10.00");
}

#[test]
fn trimming_strips_both_ends_only() {
    assert_eq!(trim_str("  hello  "), "hello");
    assert_eq!(trim_str("hello"), "hello");
    assert_eq!(trim_str("\t a b \n"), "a b");
    assert_eq!(trim_str("   "), "");
    assert_eq!(trim_str(""), "");
}

#[test]
fn splitting_keeps_empty_segments_like_the_console() {
    let parts = split_spaces("go forward");
    assert_eq!(parts, vec!["go", "forward"]);
    let doubled = split_spaces("a  b");
    assert_eq!(doubled, vec!["a", "", "b"]);
    let empty = split_spaces("");
    assert_eq!(empty, vec![""]);
}

#[test]
fn lowercase_folds_ascii_only() {
    assert_eq!(ascii_lowercase("FooBAR"), "foobar");
    assert_eq!(ascii_lowercase("tictactoe"), "tictactoe");
    assert_eq!(ascii_lowercase("A1 B2!"), "a1 b2!");
}

#[test]
fn string_equality_is_by_content() {
    assert!(str_eq("abc", "abc"));
    assert!(!str_eq("abc", "abd"));
    assert!(!str_eq("abc", "ab"));
    assert!(str_eq("", ""));
}

#[test]
fn number_parsing_accepts_exactly_digit_strings_that_fit() {
    assert_eq!(parse_u64("0"), Some(0));
    assert_eq!(parse_u64("123"), Some(123));
    assert_eq!(parse_u64("18446744073709551615"), Some(u64::MAX));
    assert_eq!(parse_u64("18446744073709551616"), None);
    assert_eq!(parse_u64(""), None);
    assert_eq!(parse_u64("12a"), None);
    assert_eq!(parse_u64("-3"), None);
}
