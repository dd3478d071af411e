use graph_repo::value::{GraphValue, Properties};

#[test]
fn new_map_has_no_entries() {
    let props = Properties::new();
    assert!(props.entries.is_empty());
    assert_eq!(props.get("uid"), None);
}

#[test]
fn get_finds_what_insert_stored() {
    let mut props = Properties::new();
    props.insert("uid".to_string(), GraphValue::String("123".to_string()));
    props.insert("age".to_string(), GraphValue::Int(42));
    assert_eq!(props.get("uid"), Some(&GraphValue::String("123".to_string())));
    assert_eq!(props.get("age"), Some(&GraphValue::Int(42)));
}

#[test]
fn get_matches_keys_exactly() {
    let mut props = Properties::new();
    props.insert("uid".to_string(), GraphValue::Bool(true));
    assert_eq!(props.get("UID"), None);
    assert_eq!(props.get("uid "), None);
    assert_eq!(props.get("ui"), None);
    assert_eq!(props.get(""), None);
}

#[test]
fn later_insert_replaces_the_value() {
    let mut props = Properties::new();
    props.insert("title".to_string(), GraphValue::String("old".to_string()));
    props.insert("other".to_string(), GraphValue::Null);
    props.insert("title".to_string(), GraphValue::String("new".to_string()));
    assert_eq!(props.get("title"), Some(&GraphValue::String("new".to_string())));
    assert_eq!(props.get("other"), Some(&GraphValue::Null));
}
