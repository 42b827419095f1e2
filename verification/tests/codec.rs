use bz2gh::decimal::{decimal_string, push_decimal};
use bz2gh::key::embed;
use bz2gh::text::{chars_of, first_occurrence, occurs_here};

#[test]
fn decimal_of_zero_is_one_digit() {
    assert_eq!(decimal_string(0), "0");
}

#[test]
fn decimal_has_no_leading_zero() {
    assert_eq!(decimal_string(7), "7");
    assert_eq!(decimal_string(10), "10");
    assert_eq!(decimal_string(1005), "1005");
}

#[test]
fn decimal_of_largest_identifier() {
    assert_eq!(decimal_string(u32::MAX), "4294967295");
}

#[test]
fn push_decimal_appends_behind_what_is_there() {
    let mut out = String::from("id=");
    push_decimal(&mut out, 120);
    assert_eq!(out, "id=120");
}

#[test]
fn embed_wraps_the_identifier_in_brackets() {
    assert_eq!(embed(1), "[1]");
    assert_eq!(embed(0), "[0]");
    assert_eq!(embed(1234567), "[1234567]");
}

#[test]
fn matches_finds_the_key_anywhere_in_the_title() {
    assert!(bz2gh::key::matches("Crash on load [1]", 1));
    assert!(bz2gh::key::matches("[1] Crash on load", 1));
    assert!(bz2gh::key::matches("Crash [1] on load", 1));
    assert!(bz2gh::key::matches("[1]", 1));
}

#[test]
fn matches_needs_the_brackets() {
    assert!(!bz2gh::key::matches("Crash on load 1", 1));
    assert!(!bz2gh::key::matches("Crash on load [1", 1));
    assert!(!bz2gh::key::matches("Crash on load 1]", 1));
    assert!(!bz2gh::key::matches("", 1));
}

#[test]
fn matches_is_not_fooled_by_a_longer_number() {
    assert!(!bz2gh::key::matches("Crash on load [123]", 12));
    assert!(!bz2gh::key::matches("Crash on load [123]", 23));
    assert!(!bz2gh::key::matches("Crash on load [123]", 1));
    assert!(bz2gh::key::matches("Crash on load [123]", 123));
}

#[test]
fn key_matches_its_own_identifier_only() {
    let ids: [u32; 8] = [0, 1, 2, 12, 21, 123, 1230, u32::MAX];
    for n in ids {
        let key = embed(n);
        for m in ids {
            assert_eq!(bz2gh::key::matches(&key, m), n == m);
        }
    }
}

#[test]
fn matches_counts_characters_not_bytes() {
    assert!(bz2gh::key::matches("Absturz beim Öffnen [7]", 7));
    assert!(!bz2gh::key::matches("Absturz beim Öffnen [7]", 8));
}

#[test]
fn chars_of_keeps_every_character() {
    assert_eq!(chars_of("aé[1]"), vec!['a', 'é', '[', '1', ']']);
    assert_eq!(chars_of(""), Vec::<char>::new());
}

#[test]
fn first_occurrence_is_the_leftmost() {
    let hay = chars_of("abcabc");
    assert_eq!(first_occurrence(&hay, &chars_of("bc")), Some(1));
    assert_eq!(first_occurrence(&hay, &chars_of("abc")), Some(0));
    assert_eq!(first_occurrence(&hay, &chars_of("cab")), Some(2));
    assert_eq!(first_occurrence(&hay, &chars_of("abcabc")), Some(0));
    assert_eq!(first_occurrence(&hay, &chars_of("")), Some(0));
    assert_eq!(first_occurrence(&hay, &chars_of("abcabca")), None);
    assert_eq!(first_occurrence(&hay, &chars_of("ca ")), None);
    assert_eq!(first_occurrence(&chars_of(""), &chars_of("")), Some(0));
    assert_eq!(first_occurrence(&chars_of(""), &chars_of("a")), None);
}

#[test]
fn occurs_here_checks_one_offset() {
    let hay = chars_of("abcabc");
    let needle = chars_of("bc");
    assert!(occurs_here(&hay, &needle, 1));
    assert!(occurs_here(&hay, &needle, 4));
    assert!(!occurs_here(&hay, &needle, 0));
    assert!(!occurs_here(&hay, &needle, 5));
    assert!(!occurs_here(&hay, &needle, 6));
    assert!(!occurs_here(&hay, &needle, usize::MAX));
    assert!(occurs_here(&hay, &chars_of(""), 6));
    assert!(!occurs_here(&hay, &chars_of(""), 7));
}
