use itch_scrape::text::{check_float, parse_i32, split_entries, str_eq, trim_str, trimmed_text};

#[test]
fn trims_unicode_whitespace() {
    assert_eq!(trim_str("  a b \n"), "a b");
    assert_eq!(trim_str("\u{3000}x\u{A0}"), "x");
    assert_eq!(trim_str(" \t "), "");
    assert_eq!(trim_str(""), "");
}

#[test]
fn joins_then_trims() {
    assert_eq!(trimmed_text(&vec![" a".to_string(), "b ".to_string()]), "ab");
}

#[test]
fn splits_entries() {
    let v = split_entries(&vec!["a\n , \nb".to_string(), ",".to_string(), "  ".to_string(), "c".to_string()]);
    assert_eq!(v, vec!["a", "b", "c"]);
    assert!(split_entries(&vec![]).is_empty());
}

#[test]
fn parses_i32() {
    assert_eq!(parse_i32("120"), Some(120));
    assert_eq!(parse_i32("+7"), Some(7));
    assert_eq!(parse_i32("-2147483648"), Some(i32::MIN));
    assert_eq!(parse_i32("2147483647"), Some(i32::MAX));
    assert_eq!(parse_i32("2147483648"), None);
    assert_eq!(parse_i32("99999999999999999999"), None);
    assert_eq!(parse_i32("0000000000000000000012"), Some(12));
    assert_eq!(parse_i32(""), None);
    assert_eq!(parse_i32("-"), None);
    assert_eq!(parse_i32("1a"), None);
    assert_eq!(parse_i32(" 1"), None);
}

#[test]
fn recognises_float_text() {
    assert!(check_float("4.5"));
    assert!(check_float("-3"));
    assert!(check_float(".5"));
    assert!(check_float("5."));
    assert!(!check_float("."));
    assert!(!check_float("1.2.3"));
    assert!(!check_float(""));
    assert!(!check_float("abc"));
    assert!(!check_float("+"));
    assert!(check_float("1e5"));
    assert!(check_float("2.5E-3"));
    assert!(check_float("-inf"));
    assert!(check_float("Infinity"));
    assert!(check_float("NaN"));
    assert!(!check_float("1e"));
    assert!(!check_float("e5"));
    assert!(!check_float("1e5.0"));
    assert!(!check_float("infinit"));
    assert!(!check_float(" 1"));
    for t in ["4.5", "1e5", "-inf", ".5", "5.", "NaN", "+3"] {
        assert!(t.parse::<f32>().is_ok(), "{}", t);
    }
    for t in [".", "1e", "e5", "1.2.3", ""] {
        assert!(t.parse::<f32>().is_err(), "{}", t);
    }
}

#[test]
fn compares_strings() {
    assert!(str_eq("Tags", "Tags"));
    assert!(!str_eq("Tags", "Tag"));
    assert!(!str_eq("Tags", "tags"));
}
