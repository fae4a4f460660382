use file_opt::errors::ParseError;
use file_opt::flat_map::KeyValueMap;
use file_opt::json::parse_flat_map;

fn parse_str(text: &str) -> Result<KeyValueMap, ParseError> {
    parse_flat_map(&text.as_bytes().to_vec())
}

#[test]
fn test_parse_valid() {
    let result = parse_str("{ \"key\": \"value\" }");
    assert!(result.is_ok());
    let map = result.unwrap();
    assert_eq!(map.len(), 1);
    assert_eq!(map.get(&String::from("key")), Some(&String::from("value")));
}

#[test]
fn test_parse_invalid_value_type() {
    let result = parse_str("{ \"invalid\": 123 }");
    assert!(result.is_err());
    assert!(result
        .unwrap_err()
        .message()
        .contains("could not read json or arb file"));
}

#[test]
fn test_parse_malformed() {
    assert!(parse_str("{ \"key\": ").is_err());
    assert!(parse_str("").is_err());
    assert!(parse_str("[\"key\"]").is_err());
    assert!(parse_str("\"key\"").is_err());
    assert!(parse_str("{ \"nested\": { \"key\": \"value\" } }").is_err());
    assert!(parse_str("{ \"list\": [\"value\"] }").is_err());
    assert!(parse_str("{ \"null\": null }").is_err());
}

#[test]
fn test_parse_empty_object() {
    let map = parse_str("{}").unwrap();
    assert_eq!(map.len(), 0);
}

#[test]
fn test_parse_decodes_escapes() {
    let map = parse_str("{\"k\": \"a\\nb\"}").unwrap();
    assert_eq!(map.get(&String::from("k")), Some(&String::from("a\nb")));
}

#[test]
fn test_parse_duplicate_key_last_wins() {
    let map = parse_str("{\"a\": \"1\", \"a\": \"2\"}").unwrap();
    assert_eq!(map.len(), 1);
    assert_eq!(map.get(&String::from("a")), Some(&String::from("2")));
}

#[test]
fn test_round_trip() {
    let mut source = std::collections::HashMap::new();
    source.insert(String::from("alpha"), String::from("one"));
    source.insert(String::from("beta"), String::from("two"));
    source.insert(String::from("gamma"), String::from("three"));

    let text = serde_json::to_string(&source).unwrap();
    let parsed = parse_flat_map(&text.into_bytes()).unwrap();

    assert_eq!(parsed.len(), source.len());
    for (k, v) in &source {
        assert_eq!(parsed.get(k), Some(v));
    }
}

#[test]
fn test_parse_order_insensitive() {
    let a = parse_str("{\"k1\": \"v1\", \"k2\": \"v2\"}").unwrap();
    let b = parse_str("{\"k2\": \"v2\", \"k1\": \"v1\"}").unwrap();
    assert_eq!(a.len(), b.len());
    assert!(file_opt::validate::same_key_set(&a, &b));
    assert_eq!(a.get(&String::from("k1")), b.get(&String::from("k1")));
    assert_eq!(a.get(&String::from("k2")), b.get(&String::from("k2")));
}

#[test]
fn test_map_insert_and_lookup() {
    let mut m = KeyValueMap::new();
    assert_eq!(m.len(), 0);
    m.insert(String::from("k"), String::from("v1"));
    assert_eq!(m.len(), 1);
    assert!(m.contains_key(&String::from("k")));
    assert!(!m.contains_key(&String::from("missing")));
    m.insert(String::from("k"), String::from("v2"));
    assert_eq!(m.len(), 1);
    assert_eq!(m.get(&String::from("k")), Some(&String::from("v2")));
    assert_eq!(m.get(&String::from("missing")), None);
}
