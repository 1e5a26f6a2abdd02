use std::cmp::Ordering;

use name_id::decimal_string;
use name_id::resolve;
use name_id::NameId;
use name_id::SourceValue;

#[test]
fn construction_is_deterministic() {
    let a = NameId::new("entity");
    let b = NameId::new("entity");
    assert_eq!(a.value(), b.value());
    assert!(a.const_eq(&b));
    assert!(a == b);
}

#[test]
fn distinct_names_get_distinct_digests() {
    let a = NameId::new("hello");
    let b = NameId::new("world");
    assert_ne!(a.value(), b.value());
    assert!(!a.const_eq(&b));
}

#[test]
fn string_source_matches_str_source() {
    let from_str = NameId::new("config_key");
    let from_string = NameId::new(&String::from("config_key"));
    assert!(from_str.const_eq(&from_string));
}

#[test]
fn from_raw_round_trips_the_digest() {
    let id = NameId::new("some_id_ident");
    let raw = NameId::from_raw(id.value());
    assert!(raw.const_eq(&id));
    assert_eq!(raw.value(), id.value());
    assert!(raw.debug_label().is_none());
}

#[test]
fn end_to_end_example() {
    let resolved = resolve(&vec![SourceValue::Ident(String::from("some_id_ident"))]).unwrap();
    let rebuilt = NameId::from_raw(resolved.value());
    assert!(rebuilt == NameId::new("some_id_ident"));

    let number = resolve(&vec![SourceValue::Int(String::from("256"))]).unwrap();
    let word = resolve(&vec![SourceValue::Ident(String::from("two_five_six"))]).unwrap();
    assert_ne!(number.value(), word.value());
    assert_eq!(number.value(), NameId::new("256").value());
}

#[test]
fn labeled_construction_keeps_digest_semantics() {
    let plain = NameId::new("player");
    let labeled = NameId::from_raw_labeled(plain.value(), "player");
    assert!(plain.const_eq(&labeled));
    assert_eq!(labeled.debug_label(), Some("player"));
}

#[test]
fn equals_text_is_case_sensitive() {
    let id = NameId::new("hello");
    assert!(id.equals_text("hello"));
    assert!(!id.equals_text("Hello"));
}

#[test]
fn const_eq_value_compares_raw_digests() {
    let id = NameId::new("alpha");
    assert!(id.const_eq_value(id.value()));
    assert!(!id.const_eq_value(id.value().wrapping_add(1)));
}

#[test]
fn comparison_follows_digest_order() {
    let low = NameId::from_raw(10);
    let mid = NameId::from_raw(20);
    let high = NameId::from_raw(30);

    assert_eq!(low.const_cmp(&mid), Ordering::Less);
    assert_eq!(mid.const_cmp(&mid), Ordering::Equal);
    assert_eq!(high.const_cmp(&mid), Ordering::Greater);
    assert_eq!(mid.const_cmp_value(30), Ordering::Less);

    assert!(low < mid);
    assert!(mid < high);
    assert!(low < high);
    assert!(low.partial_cmp(&mid) == Some(Ordering::Less));
}

#[test]
fn ordering_transitive_on_fresh_names() {
    let mut ids = vec![
        NameId::new("one"),
        NameId::new("two"),
        NameId::new("three"),
    ];
    ids.sort_by(|a, b| a.const_cmp(b));
    assert!(ids[0].const_cmp(&ids[1]) != Ordering::Greater);
    assert!(ids[1].const_cmp(&ids[2]) != Ordering::Greater);
    assert!(ids[0].const_cmp(&ids[2]) != Ordering::Greater);
}

#[test]
fn decimal_rendering_is_exact() {
    assert_eq!(decimal_string(0), "0");
    assert_eq!(decimal_string(7), "7");
    assert_eq!(decimal_string(256), "256");
    assert_eq!(decimal_string(1009), "1009");
    assert_eq!(decimal_string(u64::MAX), "18446744073709551615");
}

#[test]
fn known_digest_of_fixed_key_hasher() {
    // Golden value for the fixed-key hasher, so a provider change is noticed.
    let id = NameId::new("id macro supports string values");
    assert_eq!(id.value(), 10398550419565578837u64);
}

#[test]
fn digest_converts_to_u64() {
    let id = NameId::new("conversion");
    let raw: u64 = u64::from(id);
    assert_eq!(raw, id.value());
}

#[test]
fn describe_prefers_the_label() {
    let labeled = NameId::from_raw_labeled(5, "speed");
    assert_eq!(labeled.describe(), "#{speed}");
    let plain = NameId::from_raw(256);
    assert_eq!(plain.describe(), "NameId(256)");
}
