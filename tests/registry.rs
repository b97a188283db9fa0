use koto_bevy::registry::SystemTable;

#[test]
fn empty_table_has_nothing() {
    let t = SystemTable::new();
    assert_eq!(t.get("call_bevy_system"), None);
    assert!(t.entries().is_empty());
}

#[test]
fn register_then_get() {
    let mut t = SystemTable::new();
    t.register("call_bevy_system", 7);
    assert_eq!(t.get("call_bevy_system"), Some(7));
    assert_eq!(t.get("other"), None);
    assert_eq!(t.entries(), vec![("call_bevy_system".to_string(), 7)]);
}

#[test]
fn register_same_name_replaces() {
    let mut t = SystemTable::new();
    t.register("a", 1);
    t.register("b", 2);
    t.register("a", 3);
    assert_eq!(t.get("a"), Some(3));
    assert_eq!(t.get("b"), Some(2));
    let mut entries = t.entries();
    entries.sort();
    assert_eq!(entries, vec![("a".to_string(), 3), ("b".to_string(), 2)]);
}

#[test]
fn names_differ_by_content_only() {
    let mut t = SystemTable::new();
    let name = String::from("sys");
    t.register(&name, 11);
    assert_eq!(t.get("sys"), Some(11));
    assert_eq!(t.get("Sys"), None);
    assert_eq!(t.get("sys "), None);
}
