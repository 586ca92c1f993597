use zt_gateway::json::string_member;
use zt_gateway::text::{has_prefix, same_text, skip_chars};

#[test]
fn same_text_compares_whole_texts() {
    assert!(same_text("GET", "GET"));
    assert!(!same_text("GET", "get"));
    assert!(!same_text("GET", "GETS"));
    assert!(same_text("", ""));
}

#[test]
fn has_prefix_looks_at_the_beginning() {
    assert!(has_prefix("/ztapi/status", "/ztapi/"));
    assert!(has_prefix("/ztapi/", "/ztapi/"));
    assert!(!has_prefix("/ztapi", "/ztapi/"));
    assert!(!has_prefix("/api/ztapi/", "/ztapi/"));
    assert!(has_prefix("anything", ""));
    assert!(!has_prefix("", "x"));
}

#[test]
fn has_prefix_counts_characters() {
    assert!(has_prefix("péché", "pé"));
    assert!(!has_prefix("peche", "pé"));
}

#[test]
fn skip_chars_drops_the_beginning() {
    assert_eq!(skip_chars("/ztapi/status", 7), "status");
    assert_eq!(skip_chars("abc", 0), "abc");
    assert_eq!(skip_chars("abc", 3), "");
    assert_eq!(skip_chars("abc", 4), "");
    assert_eq!(skip_chars("péché", 2), "ché");
}

#[test]
fn string_member_reads_strings_of_objects() {
    let document: serde_json::Value =
        serde_json::from_str(r#"{"username":"admin","age":3,"nested":{"username":"x"},"none":null}"#)
            .unwrap();
    assert_eq!(string_member(&document, "username"), Some("admin".to_string()));
    assert_eq!(string_member(&document, "age"), None);
    assert_eq!(string_member(&document, "nested"), None);
    assert_eq!(string_member(&document, "none"), None);
    assert_eq!(string_member(&document, "password"), None);
}

#[test]
fn string_member_of_what_is_no_object_is_none() {
    let list: serde_json::Value = serde_json::from_str(r#"["username"]"#).unwrap();
    assert_eq!(string_member(&list, "username"), None);
    let text: serde_json::Value = serde_json::from_str(r#""username""#).unwrap();
    assert_eq!(string_member(&text, "username"), None);
    assert_eq!(string_member(&serde_json::Value::Null, "username"), None);
}
