use sqltui::form::{form_entry, opt_clone, opt_str_eq, FormData};

#[test]
fn get_finds_first_entry() {
    let f = FormData {
        entries: vec![
            ("a".to_string(), Some("1".to_string())),
            ("b".to_string(), None),
            ("a".to_string(), Some("2".to_string())),
        ],
    };
    assert_eq!(f.get("a"), Some(Some("1".to_string())));
    assert_eq!(f.get("b"), Some(None));
    assert_eq!(f.get("c"), None);
}

#[test]
fn set_then_get_reads_back() {
    let mut f = FormData::new();
    assert_eq!(f.get("x"), None);
    f.set("x", Some("1".to_string()));
    f.set("y", None);
    assert_eq!(f.get("x"), Some(Some("1".to_string())));
    f.set("x", Some("2".to_string()));
    assert_eq!(f.get("x"), Some(Some("2".to_string())));
    assert_eq!(f.get("y"), Some(None));
    assert_eq!(f.entries.len(), 2);
}

#[test]
fn optional_string_helpers() {
    assert!(opt_str_eq(&Some("a".to_string()), &Some("a".to_string())));
    assert!(!opt_str_eq(&Some("a".to_string()), &None));
    assert!(opt_str_eq(&None, &None));
    assert_eq!(opt_clone(&Some("z".to_string())), Some("z".to_string()));
    assert_eq!(form_entry("k", None), ("k".to_string(), None));
}
