use serde_json::Value;
use site_compiler::{resolve_header, split_document, Header};

#[test]
fn header_and_body_are_split() {
    let doc = split_document("---\ntitle: Home\nnav: false\ncount: 3\n---\n# Hi\n\ntext");
    assert_eq!(doc.fields.get("title"), Some(&Value::String("Home".to_string())));
    assert_eq!(doc.fields.get("nav"), Some(&Value::Bool(false)));
    assert_eq!(doc.fields.get("count"), Some(&Value::from(3)));
    assert_eq!(doc.fields.len(), 3);
    assert_eq!(doc.body, "# Hi\n\ntext");
}

#[test]
fn document_without_header_has_no_fields() {
    let doc = split_document("# Just a page\n\nwith text");
    assert!(doc.fields.is_empty());
    assert_eq!(doc.body, "# Just a page\n\nwith text");
}

#[test]
fn empty_document_has_no_fields_and_no_body() {
    let doc = split_document("");
    assert!(doc.fields.is_empty());
    assert_eq!(doc.body, "");
}

#[test]
fn header_that_is_no_map_counts_as_absent_and_keeps_the_raw_text() {
    let raw = "---\n- one\n- two\n---\nbody";
    let doc = split_document(raw);
    assert!(doc.fields.is_empty());
    assert_eq!(doc.body, raw);
}

#[test]
fn header_that_is_a_bare_word_counts_as_absent() {
    let raw = "---\njust text\n---\nbody";
    let doc = split_document(raw);
    assert!(doc.fields.is_empty());
    assert_eq!(doc.body, raw);
}

#[test]
fn header_without_entries_leaves_the_body() {
    let doc = split_document("---\n---\nbody");
    assert!(doc.fields.is_empty());
    assert_eq!(doc.body, "body");
}

#[test]
fn resolve_header_takes_the_fields_that_were_found() {
    let mut fields = serde_json::Map::new();
    fields.insert("title".to_string(), Value::String("T".to_string()));
    let doc = resolve_header(Header::Fields(fields.clone()), "content".to_string(), "raw");
    assert_eq!(doc.fields, fields);
    assert_eq!(doc.body, "content");
}

#[test]
fn resolve_header_without_header_keeps_the_content() {
    let doc = resolve_header(Header::Absent, "content".to_string(), "raw");
    assert!(doc.fields.is_empty());
    assert_eq!(doc.body, "content");
}

#[test]
fn resolve_header_falls_back_to_the_raw_text() {
    let doc = resolve_header(Header::Malformed, "content".to_string(), "raw");
    assert!(doc.fields.is_empty());
    assert_eq!(doc.body, "raw");
}
