use agsi_core::metadata::Metadata;
use serde_json::Value;

#[test]
fn new_bag_is_empty() {
    let bag = Metadata::new();
    assert_eq!(bag.len(), 0);
    assert!(bag.is_empty());
    assert!(bag.get("anything").is_none());
    assert!(!bag.contains_key("anything"));
}

#[test]
fn insert_then_get_returns_the_value() {
    let mut bag = Metadata::new();
    bag.insert("depth".to_string(), Value::from(12));
    bag.insert("label".to_string(), Value::from("upper clay"));
    assert_eq!(bag.len(), 2);
    assert!(!bag.is_empty());
    assert_eq!(bag.get("depth"), Some(&Value::from(12)));
    assert_eq!(bag.get("label"), Some(&Value::from("upper clay")));
    assert_eq!(bag.get("Depth"), None);
    assert!(bag.contains_key("label"));
}

#[test]
fn insert_under_a_present_name_overwrites_in_place() {
    let mut bag = Metadata::new();
    bag.insert("a".to_string(), Value::from(1));
    bag.insert("b".to_string(), Value::from(2));
    bag.insert("a".to_string(), Value::from(3));
    assert_eq!(bag.len(), 2);
    assert_eq!(bag.key_at(0), "a");
    assert_eq!(bag.value_at(0), &Value::from(3));
    assert_eq!(bag.key_at(1), "b");
    assert_eq!(bag.value_at(1), &Value::from(2));
    assert_eq!(bag.get("a"), Some(&Value::from(3)));
    assert_eq!(bag.get("b"), Some(&Value::from(2)));
}

#[test]
fn entries_keep_insertion_order() {
    let mut bag = Metadata::new();
    for (i, name) in ["z", "m", "a", "k"].iter().enumerate() {
        bag.insert(name.to_string(), Value::from(i as u64));
    }
    let names: Vec<&str> = (0..bag.len()).map(|i| bag.key_at(i).as_str()).collect();
    assert_eq!(names, vec!["z", "m", "a", "k"]);
}

#[test]
fn clone_holds_the_same_entries() {
    let mut bag = Metadata::new();
    bag.insert("nested".to_string(), Value::Array(vec![Value::Null, Value::Bool(true)]));
    bag.insert("n".to_string(), Value::from(1.5));
    let copy = bag.clone();
    bag.insert("n".to_string(), Value::from(2.5));
    assert_eq!(copy.len(), 2);
    assert_eq!(copy.key_at(0), "nested");
    assert_eq!(copy.get("nested"), Some(&Value::Array(vec![Value::Null, Value::Bool(true)])));
    assert_eq!(copy.get("n"), Some(&Value::from(1.5)));
    assert_eq!(bag.get("n"), Some(&Value::from(2.5)));
}
