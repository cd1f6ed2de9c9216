use logid::registry::Registry;

#[test]
fn registry_keeps_order_and_finds_by_name() {
    let mut table: Registry<u32> = Registry::new();
    assert_eq!(table.len(), 0);
    assert_eq!(table.position("a"), None);
    table.add("a".to_string(), 1);
    table.add("b".to_string(), 2);
    assert_eq!(table.len(), 2);
    assert_eq!(table.position("a"), Some(0));
    assert_eq!(table.position("b"), Some(1));
    assert_eq!(table.position("c"), None);
    assert_eq!(table.name_at(1), "b");
    assert_eq!(*table.value_at(0), 1);
    *table.value_at_mut(0) = 7;
    assert_eq!(*table.value_at(0), 7);
    assert_eq!(*table.value_at(1), 2);
    assert_eq!(table.names_list(), vec!["a".to_string(), "b".to_string()]);
}
