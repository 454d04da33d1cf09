use caddy_dev::vars::{parse_key_val, parse_variables, VariableSet};

fn pair(k: &str, v: &str) -> (String, String) {
    (k.to_string(), v.to_string())
}

#[test]
fn parse_splits_at_the_first_equals_sign() {
    assert_eq!(parse_key_val("port=8080"), Ok(pair("port", "8080")));
    assert_eq!(parse_key_val("url=http://x/?a=b"), Ok(pair("url", "http://x/?a=b")));
    assert_eq!(parse_key_val("empty="), Ok(pair("empty", "")));
    assert_eq!(parse_key_val("k\u{e9}y=v\u{e4}l"), Ok(pair("k\u{e9}y", "v\u{e4}l")));
}

#[test]
fn parse_rejects_an_argument_without_equals_sign() {
    assert_eq!(
        parse_key_val("novalue"),
        Err("Invalid variable format: 'novalue'. Expected key=value".to_string())
    );
    assert_eq!(
        parse_key_val(""),
        Err("Invalid variable format: ''. Expected key=value".to_string())
    );
}

#[test]
fn parse_rejects_an_empty_key() {
    assert_eq!(
        parse_key_val("=value"),
        Err("Invalid variable format: '=value'. Expected key=value".to_string())
    );
    assert_eq!(
        parse_key_val("="),
        Err("Invalid variable format: '='. Expected key=value".to_string())
    );
}

#[test]
fn a_later_pair_overrides_an_earlier_one() {
    let set = VariableSet::from_pairs(vec![pair("a", "1"), pair("b", "2"), pair("a", "3")]);
    assert_eq!(set.len(), 2);
    assert!(!set.is_empty());
    assert_eq!(set.get("a"), Some("3"));
    assert_eq!(set.get("b"), Some("2"));
    assert_eq!(set.get("c"), None);
    assert_eq!(set.keys(), vec!["a".to_string(), "b".to_string()]);
}

#[test]
fn insert_adds_and_overrides() {
    let mut set = VariableSet::new();
    assert!(set.is_empty());
    assert_eq!(set.len(), 0);
    set.insert("host".to_string(), "localhost".to_string());
    set.insert("port".to_string(), "80".to_string());
    set.insert("host".to_string(), "example.org".to_string());
    assert_eq!(set.len(), 2);
    assert_eq!(set.keys(), vec!["host".to_string(), "port".to_string()]);
    assert_eq!(set.get("host"), Some("example.org"));
    assert_eq!(set.get("port"), Some("80"));
    assert_eq!(set.get(""), None);
}

#[test]
fn arguments_are_parsed_and_collected() {
    let args = vec!["a=1".to_string(), "b=x=y".to_string(), "a=2".to_string()];
    let set = parse_variables(&args).unwrap();
    assert_eq!(
        set,
        VariableSet::from_pairs(vec![pair("a", "1"), pair("b", "x=y"), pair("a", "2")])
    );
    assert_eq!(set.len(), 2);
    assert_eq!(set.get("a"), Some("2"));
    assert_eq!(set.get("b"), Some("x=y"));
    assert!(parse_variables(&Vec::new()).unwrap().is_empty());
}

#[test]
fn the_first_malformed_argument_is_reported() {
    let args = vec![
        "a=1".to_string(),
        "novalue".to_string(),
        "=x".to_string(),
        "b=2".to_string(),
    ];
    assert_eq!(
        parse_variables(&args),
        Err("Invalid variable format: 'novalue'. Expected key=value".to_string())
    );
}
