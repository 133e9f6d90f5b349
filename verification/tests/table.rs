use iso3166_1::{all, alpha2, alpha3, name, num, CountryCode, Field};
use std::collections::HashSet;

#[test]
fn table_has_every_entry_in_order() {
    let codes = all();
    assert_eq!(codes.len(), 249);
    assert_eq!(codes[0].alpha2, "AF");
    assert_eq!(codes[0].alpha3, "AFG");
    assert_eq!(codes[0].name, "Afghanistan");
    assert_eq!(codes[0].num, "004");
    assert_eq!(codes[1].name, "Åland Islands");
    assert_eq!(codes[1].alpha2, "AX");
    assert_eq!(codes[248].alpha2, "ZW");
    assert_eq!(codes[248].alpha3, "ZWE");
    assert_eq!(codes[248].name, "Zimbabwe");
    assert_eq!(codes[248].num, "716");
}

#[test]
fn each_call_returns_its_own_table() {
    let mut first = all();
    first.clear();
    assert!(first.is_empty());
    assert_eq!(all().len(), 249);
}

#[test]
fn every_record_is_well_formed() {
    for code in all() {
        assert_eq!(code.alpha2.chars().count(), 2);
        assert!(code.alpha2.chars().all(|c| c.is_ascii_uppercase()));
        assert_eq!(code.alpha3.chars().count(), 3);
        assert!(code.alpha3.chars().all(|c| c.is_ascii_uppercase()));
        assert_eq!(code.num.chars().count(), 3);
        assert!(code.num.chars().all(|c| c.is_ascii_digit()));
        assert!(!code.name.is_empty());
    }
}

#[test]
fn no_value_occurs_twice_in_a_column() {
    let codes = all();
    let alpha2s: HashSet<&str> = codes.iter().map(|c| c.alpha2).collect();
    let alpha3s: HashSet<&str> = codes.iter().map(|c| c.alpha3).collect();
    let names: HashSet<&str> = codes.iter().map(|c| c.name).collect();
    let nums: HashSet<&str> = codes.iter().map(|c| c.num).collect();
    assert_eq!(alpha2s.len(), codes.len());
    assert_eq!(alpha3s.len(), codes.len());
    assert_eq!(names.len(), codes.len());
    assert_eq!(nums.len(), codes.len());
}

#[test]
fn names_differ_in_length_or_first_five_characters() {
    let codes = all();
    let sketches: HashSet<(usize, String)> = codes
        .iter()
        .map(|c| (c.name.chars().count(), c.name.chars().take(5).collect()))
        .collect();
    assert_eq!(sketches.len(), codes.len());
}

#[test]
fn alpha2_finds_afghanistan() {
    let found = alpha2("AF").unwrap();
    assert_eq!(found.alpha2, "AF");
    assert_eq!(found.alpha3, "AFG");
    assert_eq!(found.name, "Afghanistan");
    assert_eq!(found.num, "004");
}

#[test]
fn alpha3_finds_the_whole_record() {
    let found = alpha3("CIV").unwrap();
    assert_eq!(found.alpha2, "CI");
    assert_eq!(found.name, "Côte d'Ivoire");
    assert_eq!(found.num, "384");
}

#[test]
fn name_finds_the_whole_record() {
    let found = name("Türkiye").unwrap();
    assert_eq!(found.alpha2, "TR");
    assert_eq!(found.alpha3, "TUR");
    assert_eq!(found.num, "792");
}

#[test]
fn num_finds_the_whole_record() {
    let found = num("716").unwrap();
    assert_eq!(found.alpha2, "ZW");
    assert_eq!(found.alpha3, "ZWE");
    assert_eq!(found.name, "Zimbabwe");
}

#[test]
fn lookups_are_case_sensitive() {
    assert!(alpha2("af").is_none());
    assert!(alpha2("Af").is_none());
    assert!(alpha3("afg").is_none());
    assert!(name("afghanistan").is_none());
    assert!(name("AFGHANISTAN").is_none());
}

#[test]
fn lookups_take_the_value_as_it_is() {
    assert!(alpha2("").is_none());
    assert!(alpha3("").is_none());
    assert!(name("").is_none());
    assert!(num("").is_none());
    assert!(alpha2("AF ").is_none());
    assert!(alpha2(" AF").is_none());
    assert!(alpha2("AFG").is_none());
    assert!(alpha3("AF").is_none());
    assert!(num("4").is_none());
    assert!(num("04").is_none());
    assert!(num("0004").is_none());
    assert!(name("Aland Islands").is_none());
}

#[test]
fn lookups_do_not_cross_columns() {
    assert!(alpha2("004").is_none());
    assert!(num("AF").is_none());
    assert!(name("AFG").is_none());
    assert!(alpha3("Afghanistan").is_none());
}

#[test]
fn every_record_is_found_under_each_of_its_values() {
    for code in all() {
        let by_alpha2 = alpha2(code.alpha2).unwrap();
        let by_alpha3 = alpha3(code.alpha3).unwrap();
        let by_name = name(code.name).unwrap();
        let by_num = num(code.num).unwrap();
        for found in [by_alpha2, by_alpha3, by_name, by_num] {
            assert_eq!(found.alpha2, code.alpha2);
            assert_eq!(found.alpha3, code.alpha3);
            assert_eq!(found.name, code.name);
            assert_eq!(found.num, code.num);
        }
    }
}

#[test]
fn get_picks_the_column() {
    let code = CountryCode { alpha2: "DE", alpha3: "DEU", name: "Germany", num: "276" };
    assert_eq!(code.get(Field::Alpha2), "DE");
    assert_eq!(code.get(Field::Alpha3), "DEU");
    assert_eq!(code.get(Field::Name), "Germany");
    assert_eq!(code.get(Field::Num), "276");
}

#[test]
fn records_can_be_cloned_and_printed() {
    let code = alpha2("DE").unwrap();
    let copy = code.clone();
    assert_eq!(copy.name, "Germany");
    assert_eq!(
        format!("{:?}", copy),
        "CountryCode { alpha2: \"DE\", alpha3: \"DEU\", name: \"Germany\", num: \"276\" }"
    );
}
