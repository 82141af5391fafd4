use wasol_consumer::records::set_pair;

#[test]
fn set_pair_appends_new_keys_in_order() {
    let mut pairs = Vec::new();
    set_pair(&mut pairs, "a".to_string(), "1".to_string());
    set_pair(&mut pairs, "b".to_string(), "2".to_string());
    assert_eq!(pairs, vec![("a".to_string(), "1".to_string()), ("b".to_string(), "2".to_string())]);
}

#[test]
fn set_pair_replaces_existing_key() {
    let mut pairs = vec![("a".to_string(), "1".to_string()), ("b".to_string(), "2".to_string())];
    set_pair(&mut pairs, "a".to_string(), "3".to_string());
    assert_eq!(pairs, vec![("a".to_string(), "3".to_string()), ("b".to_string(), "2".to_string())]);
}
