use iso3166_1::range::{contains, select};
use iso3166_1::text::str_eq;
use iso3166_1::{all, num_range};
use std::num::IntErrorKind;

fn alpha3s(from: Option<&str>, to: Option<&str>) -> Vec<&'static str> {
    num_range(from, to).unwrap().iter().map(|c| c.alpha3).collect()
}

#[test]
fn both_bounds_are_inclusive() {
    assert_eq!(alpha3s(Some("004"), Some("012")), vec!["AFG", "ALB", "DZA", "ATA"]);
    assert_eq!(alpha3s(Some("005"), Some("011")), vec!["ALB", "ATA"]);
    assert_eq!(alpha3s(Some("010"), Some("010")), vec!["ATA"]);
}

#[test]
fn results_come_in_table_order() {
    // Numerically 840 < 850 < 854 < 858 < 860; the table has them by name.
    assert_eq!(alpha3s(Some("840"), Some("860")), vec!["BFA", "USA", "URY", "UZB", "VIR"]);
}

#[test]
fn from_alone_selects_upwards() {
    assert_eq!(alpha3s(Some("887"), None), vec!["YEM", "ZMB"]);
    assert_eq!(alpha3s(Some("894"), None), vec!["ZMB"]);
    assert_eq!(alpha3s(Some("895"), None), Vec::<&str>::new());
    assert_eq!(alpha3s(Some("0"), None).len(), 249);
}

#[test]
fn to_alone_selects_downwards() {
    assert_eq!(alpha3s(None, Some("008")), vec!["AFG", "ALB"]);
    assert_eq!(alpha3s(None, Some("004")), vec!["AFG"]);
    assert_eq!(alpha3s(None, Some("003")), Vec::<&str>::new());
    assert_eq!(alpha3s(None, Some("999")).len(), 249);
}

#[test]
fn no_bounds_select_nothing() {
    assert!(num_range(None, None).unwrap().is_empty());
    assert!(select(None, None).is_empty());
}

#[test]
fn crossed_bounds_select_nothing() {
    assert!(num_range(Some("012"), Some("004")).unwrap().is_empty());
}

#[test]
fn bounds_are_read_as_signed_decimal_numbers() {
    assert_eq!(alpha3s(Some("-5"), Some("4")), vec!["AFG"]);
    assert_eq!(alpha3s(Some("+4"), Some("+8")), vec!["AFG", "ALB"]);
    assert_eq!(alpha3s(Some("-0"), Some("00000000004")), vec!["AFG"]);
    assert_eq!(alpha3s(Some("-32768"), Some("32767")).len(), 249);
    assert!(num_range(None, Some("-1")).unwrap().is_empty());
}

#[test]
fn a_bound_that_is_no_number_is_an_error() {
    assert!(num_range(Some("abc"), None).is_err());
    assert!(num_range(None, Some("abc")).is_err());
    assert!(num_range(Some("abc"), Some("005")).is_err());
    assert!(num_range(Some("001"), Some("abc")).is_err());
    assert!(num_range(Some("4 "), None).is_err());
    assert!(num_range(Some(" 4"), None).is_err());
    assert!(num_range(Some("4_0"), None).is_err());
    assert!(num_range(Some("0x10"), None).is_err());
    assert!(num_range(Some("4.0"), None).is_err());
    assert!(num_range(Some("+-4"), None).is_err());
    assert!(num_range(Some("٤"), None).is_err());
}

#[test]
fn the_error_says_what_was_wrong() {
    assert_eq!(*num_range(Some("abc"), None).unwrap_err().kind(), IntErrorKind::InvalidDigit);
    assert_eq!(*num_range(Some(""), None).unwrap_err().kind(), IntErrorKind::Empty);
    assert_eq!(*num_range(Some("+"), None).unwrap_err().kind(), IntErrorKind::InvalidDigit);
    assert_eq!(*num_range(Some("-"), None).unwrap_err().kind(), IntErrorKind::InvalidDigit);
    assert_eq!(*num_range(Some("32768"), None).unwrap_err().kind(), IntErrorKind::PosOverflow);
    assert_eq!(*num_range(None, Some("-32769")).unwrap_err().kind(), IntErrorKind::NegOverflow);
}

#[test]
fn the_error_is_that_of_parsing_the_bound() {
    let expected = "abc".parse::<i16>().unwrap_err();
    assert_eq!(num_range(Some("abc"), None).unwrap_err(), expected);
    assert_eq!(num_range(None, Some("abc")).unwrap_err(), expected);
}

#[test]
fn the_error_of_from_comes_first() {
    assert_eq!(*num_range(Some(""), Some("abc")).unwrap_err().kind(), IntErrorKind::Empty);
    assert_eq!(*num_range(Some("abc"), Some("")).unwrap_err().kind(), IntErrorKind::InvalidDigit);
}

#[test]
fn select_takes_numbers() {
    let picked: Vec<&str> = select(Some(4), Some(8)).iter().map(|c| c.alpha2).collect();
    assert_eq!(picked, vec!["AF", "AL"]);
    assert_eq!(select(Some(1000), None).len(), 0);
    assert_eq!(select(None, Some(i16::MAX)).len(), 249);
    assert_eq!(select(Some(i16::MIN), None).len(), 249);
}

#[test]
fn select_agrees_with_a_plain_filter() {
    let expected: Vec<&str> = all()
        .into_iter()
        .filter(|c| {
            let n = c.num.parse::<i16>().unwrap();
            100 <= n && n <= 300
        })
        .map(|c| c.num)
        .collect();
    let got: Vec<&str> = num_range(Some("100"), Some("300")).unwrap().iter().map(|c| c.num).collect();
    assert_eq!(got, expected);
    assert_eq!(got.len(), 58);
}

#[test]
fn contains_follows_the_bounds() {
    assert!(contains(Some(1), Some(5), 1));
    assert!(contains(Some(1), Some(5), 5));
    assert!(!contains(Some(1), Some(5), 0));
    assert!(!contains(Some(1), Some(5), 6));
    assert!(contains(Some(1), None, i16::MAX));
    assert!(!contains(Some(1), None, 0));
    assert!(contains(None, Some(5), i16::MIN));
    assert!(!contains(None, Some(5), 6));
    assert!(!contains(None, None, 0));
    assert!(!contains(Some(5), Some(1), 3));
}

#[test]
fn numeric_codes_count_as_the_numbers_they_spell() {
    // "090" is ninety, not nine and not nine hundred.
    assert_eq!(alpha3s(Some("090"), Some("090")), vec!["SLB"]);
    assert_eq!(alpha3s(Some("9"), Some("9")), Vec::<&str>::new());
    assert_eq!(alpha3s(Some("900"), Some("900")), Vec::<&str>::new());
    for code in all() {
        let picked = num_range(Some(code.num), Some(code.num)).unwrap();
        assert_eq!(picked.len(), 1);
        assert_eq!(picked[0].alpha3, code.alpha3);
    }
}

#[test]
fn str_eq_compares_characters() {
    assert!(str_eq("", ""));
    assert!(str_eq("AF", "AF"));
    assert!(!str_eq("AF", "af"));
    assert!(!str_eq("AF", "AFG"));
    assert!(!str_eq("AFG", "AF"));
    assert!(!str_eq("", "A"));
    assert!(str_eq("Åland Islands", "Åland Islands"));
    assert!(!str_eq("Åland Islands", "Aland Islands"));
    assert!(!str_eq("Réunion", "Reunion"));
}
