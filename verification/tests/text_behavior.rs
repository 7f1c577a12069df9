use lg_gram::text::hyphenate;
use lg_gram::text::parse_u32;
use lg_gram::text::split_eq;
use lg_gram::text::str_eq;
use lg_gram::text::trimmed;
use lg_gram::text::u32_to_string;

#[test]
fn u32_to_string_exact_values() {
    assert_eq!(u32_to_string(0), "0");
    assert_eq!(u32_to_string(1), "1");
    assert_eq!(u32_to_string(9), "9");
    assert_eq!(u32_to_string(10), "10");
    assert_eq!(u32_to_string(80), "80");
    assert_eq!(u32_to_string(100), "100");
    assert_eq!(u32_to_string(4294967295), "4294967295");
}

#[test]
fn parse_u32_accepts_digit_strings() {
    assert_eq!(parse_u32("0"), Some(0));
    assert_eq!(parse_u32("80"), Some(80));
    assert_eq!(parse_u32("100"), Some(100));
    assert_eq!(parse_u32("080"), Some(80));
    assert_eq!(parse_u32("4294967295"), Some(4294967295));
}

#[test]
fn parse_u32_rejects_non_digits_and_overflow() {
    assert_eq!(parse_u32(""), None);
    assert_eq!(parse_u32("abc"), None);
    assert_eq!(parse_u32("8x"), None);
    assert_eq!(parse_u32("-1"), None);
    assert_eq!(parse_u32(" 80"), None);
    assert_eq!(parse_u32("4294967296"), None);
    assert_eq!(parse_u32("99999999999999999999"), None);
}

#[test]
fn parse_after_format_round_trips() {
    for v in [0u32, 1, 2, 80, 100, 12345, 4294967295] {
        assert_eq!(parse_u32(u32_to_string(v).as_str()), Some(v));
    }
}

#[test]
fn trimmed_strips_surrounding_whitespace() {
    assert_eq!(trimmed(" 80\n"), "80");
    assert_eq!(trimmed("\t\r\n x \n"), "x");
    assert_eq!(trimmed("80"), "80");
    assert_eq!(trimmed(""), "");
    assert_eq!(trimmed("  \n\t "), "");
    assert_eq!(trimmed("a b"), "a b");
}

#[test]
fn str_eq_compares_by_content() {
    assert!(str_eq("abc", "abc"));
    assert!(!str_eq("abc", "abd"));
    assert!(!str_eq("abc", "ab"));
    assert!(str_eq("", ""));
}

#[test]
fn split_eq_splits_at_first_equals() {
    assert_eq!(split_eq("a=b"), Some(("a", "b")));
    assert_eq!(split_eq("=x"), Some(("", "x")));
    assert_eq!(split_eq("a="), Some(("a", "")));
    assert_eq!(split_eq("a=b=c"), Some(("a", "b=c")));
    assert_eq!(split_eq("noequals"), None);
    assert_eq!(split_eq(""), None);
}

#[test]
fn hyphenate_replaces_underscores() {
    assert_eq!(hyphenate("battery_care_limit"), "battery-care-limit");
    assert_eq!(hyphenate("fn_lock"), "fn-lock");
    assert_eq!(hyphenate("nounderscore"), "nounderscore");
    assert_eq!(hyphenate(""), "");
}
