use food_trace::json::{display_name_of, extract_display_name, Json};

#[test]
fn text_that_is_not_json_has_no_name() {
    assert_eq!(extract_display_name("not json at all"), None);
    assert_eq!(extract_display_name("{\"productName\": \"Rice\""), None);
    assert_eq!(extract_display_name(""), None);
}

#[test]
fn array_has_no_name() {
    assert_eq!(extract_display_name("[{\"productName\": \"Rice\"}]"), None);
}

#[test]
fn object_without_product_name_has_no_name() {
    assert_eq!(extract_display_name("{\"name\": \"Rice\", \"origin\": \"Hunan\"}"), None);
    assert_eq!(extract_display_name("{}"), None);
}

#[test]
fn number_product_name_is_no_name() {
    assert_eq!(extract_display_name("{\"productName\": 42}"), None);
    assert_eq!(extract_display_name("{\"productName\": null}"), None);
    assert_eq!(extract_display_name("{\"productName\": [\"Rice\"]}"), None);
}

#[test]
fn string_product_name_is_the_name() {
    assert_eq!(extract_display_name("{\"productName\": \"Organic Rice\"}"), Some("Organic Rice".to_string()));
    assert_eq!(
        extract_display_name("{\"batch\": 7, \"productName\": \"Tea\", \"origin\": {\"productName\": \"x\"}}"),
        Some("Tea".to_string())
    );
    assert_eq!(extract_display_name("  {\"productName\": \"\"}  "), Some(String::new()));
}

#[test]
fn scalar_documents_have_no_name() {
    assert_eq!(extract_display_name("\"productName\""), None);
    assert_eq!(extract_display_name("12"), None);
    assert_eq!(extract_display_name("true"), None);
}

#[test]
fn display_name_of_reads_the_first_matching_member() {
    let doc = Json::Object(vec![
        ("origin".to_string(), Json::Str("Yunnan".to_string())),
        ("productName".to_string(), Json::Str("Pu'er".to_string())),
        ("productName".to_string(), Json::Str("later".to_string())),
    ]);
    assert_eq!(display_name_of(&doc), Some("Pu'er".to_string()));
    let doc = Json::Object(vec![("productName".to_string(), Json::Number(serde_json::Number::from(5)))]);
    assert_eq!(display_name_of(&doc), None);
    assert_eq!(display_name_of(&Json::Array(vec![Json::Str("productName".to_string())])), None);
    assert_eq!(display_name_of(&Json::Null), None);
    assert_eq!(display_name_of(&Json::Bool(true)), None);
}
