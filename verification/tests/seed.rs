use std::collections::HashMap;

use siblings::env::Env;
use siblings::resolver::{Resolution, Siblings};
use siblings::seed::{plan_writes, seed_writes, settled, SeedError};

fn entries(pairs: &[(&str, &str)]) -> Vec<(String, String)> {
    pairs.iter().map(|(k, v)| (k.to_string(), v.to_string())).collect()
}

fn write(key: &str, payload: &str) -> (String, Vec<u8>) {
    (key.to_string(), payload.as_bytes().to_vec())
}

fn sorted(mut writes: Vec<(String, Vec<u8>)>) -> Vec<(String, Vec<u8>)> {
    writes.sort();
    writes
}

#[test]
fn settled_keeps_each_key_once() {
    assert_eq!(settled(&entries(&[])), entries(&[]));
    assert_eq!(
        settled(&entries(&[("default", "a"), ("in", "b")])),
        entries(&[("default", "a"), ("in", "b")])
    );
    assert_eq!(
        settled(&entries(&[("default", "a"), ("in", "b"), ("default", "c"), ("us", "d"), ("in", "e")])),
        entries(&[("default", "c"), ("in", "e"), ("us", "d")])
    );
    assert_eq!(settled(&entries(&[("k", "1"), ("k", "2"), ("k", "3")])), entries(&[("k", "3")]));
}

#[test]
fn plan_has_one_write_for_each_sibling_in_order() {
    let document = vec![
        ("august".to_string(), entries(&[("default", "https://a"), ("in", "https://a-in")])),
        ("k9".to_string(), entries(&[("default", "https://k9")])),
        ("bank-statement".to_string(), entries(&[])),
    ];
    assert_eq!(
        plan_writes(Env::Prod, &document).unwrap(),
        vec![
            write("ep-august", r#"{"default":"https://a","in":"https://a-in"}"#),
            write("ep-k9", r#"{"default":"https://k9"}"#),
            write("ep-bank-statement", "{}"),
        ]
    );
    assert_eq!(
        plan_writes(Env::Dev, &document).unwrap(),
        vec![
            write("dev-ep-august", r#"{"default":"https://a","in":"https://a-in"}"#),
            write("dev-ep-k9", r#"{"default":"https://k9"}"#),
            write("dev-ep-bank-statement", "{}"),
        ]
    );
    assert_eq!(plan_writes(Env::Prod, &Vec::new()).unwrap(), Vec::new());
}

#[test]
fn payload_fields_come_in_ascending_order() {
    let document = vec![(
        "credit".to_string(),
        entries(&[("us", "https://u"), ("in", "https://i"), ("default", "https://d"), ("Zone", "z")]),
    )];
    assert_eq!(
        plan_writes(Env::Prod, &document).unwrap(),
        vec![write(
            "ep-credit",
            r#"{"Zone":"z","default":"https://d","in":"https://i","us":"https://u"}"#
        )]
    );
}

#[test]
fn payload_takes_the_last_value_of_a_repeated_field() {
    let document = vec![(
        "credit".to_string(),
        entries(&[("default", "https://one"), ("in", "https://i"), ("default", "https://two")]),
    )];
    assert_eq!(
        plan_writes(Env::Prod, &document).unwrap(),
        vec![write("ep-credit", r#"{"default":"https://two","in":"https://i"}"#)]
    );
}

#[test]
fn payload_text_is_escaped() {
    let document = vec![("credit".to_string(), entries(&[("default", "a\"b\\c\n\u{e9}")]))];
    assert_eq!(
        plan_writes(Env::Prod, &document).unwrap(),
        vec![write("ep-credit", "{\"default\":\"a\\\"b\\\\c\\n\u{e9}\"}")]
    );
}

#[test]
fn document_is_planned_sibling_by_sibling() {
    let document = r#"{
        "august": {"default": "https://a", "in": "https://a-in"},
        "bank-statement": {"us": "https://bs-us", "default": "https://bs"},
        "credit": {}
    }"#;
    assert_eq!(
        sorted(seed_writes(Env::Prod, document).unwrap()),
        vec![
            write("ep-august", r#"{"default":"https://a","in":"https://a-in"}"#),
            write("ep-bank-statement", r#"{"default":"https://bs","us":"https://bs-us"}"#),
            write("ep-credit", "{}"),
        ]
    );
    assert_eq!(
        sorted(seed_writes(Env::Dev, document).unwrap()),
        vec![
            write("dev-ep-august", r#"{"default":"https://a","in":"https://a-in"}"#),
            write("dev-ep-bank-statement", r#"{"default":"https://bs","us":"https://bs-us"}"#),
            write("dev-ep-credit", "{}"),
        ]
    );
    assert_eq!(seed_writes(Env::Prod, "{}").unwrap(), Vec::new());
}

#[test]
fn a_repeated_sibling_is_written_once_with_its_last_fields() {
    let document = r#"{"k9": {"default": "https://one"}, "k9": {"default": "https://two"}}"#;
    assert_eq!(
        seed_writes(Env::Prod, document).unwrap(),
        vec![write("ep-k9", r#"{"default":"https://two"}"#)]
    );
}

#[test]
fn document_that_is_no_object_of_objects_of_strings() {
    for text in [
        "",
        "not json",
        "[]",
        r#"{"august": "https://a"}"#,
        r#"{"august": {"default": 1}}"#,
        r#"{"august": {"default": "https://a"}"#,
        r#"{"august": {"default": "https://a"}} x"#,
    ] {
        assert!(matches!(seed_writes(Env::Prod, text), Err(SeedError::Malformed(_))), "{text:?}");
    }
}

#[test]
fn a_seeded_store_answers_the_resolver() {
    let document = r#"{
        "august": {"default": "https://a", "in": "https://a-in"},
        "finance-statement": {"default": "https://fs", "us": "https://fs-us"}
    }"#;
    let store: HashMap<String, Vec<u8>> = seed_writes(Env::Dev, document).unwrap().into_iter().collect();
    let mut resolver = Siblings::new(None, Env::Dev);
    for (sibling, region, expected) in [
        ("august", Some("IN"), Some("https://a-in")),
        ("august", Some("US"), Some("https://a")),
        ("finance-statement", Some("US"), Some("https://fs-us")),
        ("finance-statement", None, Some("https://fs")),
        ("credit", None, None),
    ] {
        let address = match resolver.sibling(sibling, region).unwrap() {
            Resolution::Found(address) => Some(address),
            Resolution::Fetch { sibling, region, key } => {
                resolver.resolve_fetched(&sibling, region, store.get(&key).cloned())
            },
        };
        assert_eq!(address.as_deref(), expected);
    }
    // A production resolver finds nothing in a store seeded for development.
    let mut resolver = Siblings::new(None, Env::Prod);
    match resolver.sibling("august", None).unwrap() {
        Resolution::Fetch { sibling, region, key } => {
            assert_eq!(key, "ep-august");
            assert_eq!(resolver.resolve_fetched(&sibling, region, store.get(&key).cloned()), None);
        },
        Resolution::Found(a) => panic!("found {a}"),
    }
}
