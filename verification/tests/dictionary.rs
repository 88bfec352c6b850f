use appconfiguration::dictionary::Dictionary;
use appconfiguration::Value;

#[test]
fn a_dictionary_holds_the_last_value_of_each_key() {
    let mut map: Dictionary<Value> = Dictionary::new();
    assert_eq!(map.len(), 0);
    assert!(map.get("a").is_none());
    map.insert("a".to_string(), Value::Int64(1));
    map.insert("b".to_string(), Value::Int64(2));
    map.insert("a".to_string(), Value::Int64(3));
    assert_eq!(map.len(), 2);
    assert!(map.contains_key("a"));
    assert!(!map.contains_key("A"));
    assert!(matches!(map.get("a"), Some(Value::Int64(3))));
    assert!(matches!(map.get("b"), Some(Value::Int64(2))));
    assert!(map.get("c").is_none());
    assert_eq!(map.keys(), vec!["a".to_string(), "b".to_string()]);
}
