use ratanotes::calendar::{days_in_month, month_name};
use ratanotes::search::{lowercase, occurs};
use ratanotes::strutil::{decimal_i64, trim_start_str, trim_str};
use ratanotes::tagset::str_less;

#[test]
fn month_lengths() {
    assert_eq!(days_in_month(2024, 2), 29);
    assert_eq!(days_in_month(2023, 2), 28);
    assert_eq!(days_in_month(1900, 2), 28);
    assert_eq!(days_in_month(2000, 2), 29);
    assert_eq!(days_in_month(2023, 4), 30);
    assert_eq!(days_in_month(2023, 12), 31);
}

#[test]
fn month_names() {
    assert_eq!(month_name(1), "January");
    assert_eq!(month_name(12), "December");
    assert_eq!(month_name(13), "Unknown");
}

#[test]
fn substring_search() {
    assert!(occurs("hello", "ell"));
    assert!(occurs("hello", ""));
    assert!(!occurs("hello", "lol"));
    assert!(!occurs("he", "hello"));
}

#[test]
fn folding_and_trimming() {
    assert_eq!(lowercase("ÀbC"), "àbc");
    assert_eq!(trim_str("\t a b \n"), "a b");
    assert_eq!(trim_start_str("  a "), "a ");
    assert_eq!(decimal_i64(-42), "-42");
}

#[test]
fn string_order() {
    assert!(str_less("a", "b"));
    assert!(str_less("ab", "abc"));
    assert!(!str_less("b", "ab"));
    assert!(!str_less("x", "x"));
}
