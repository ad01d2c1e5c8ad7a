use reading_status::openapi::{openapi_document, status_list};

#[test]
fn status_list_text() {
    assert_eq!(status_list(), r#"["to_read","reading","read"]"#);
}

#[test]
fn document_is_json_with_both_operations() {
    let doc: serde_json::Value = serde_json::from_str(&openapi_document()).unwrap();
    assert_eq!(doc["openapi"], "3.0.3");
    let path = &doc["paths"]["/articles/{article_id}/status"];
    assert_eq!(path["get"]["operationId"], "get_article_status");
    assert_eq!(path["put"]["operationId"], "put_article_status");
    let schemas = &doc["components"]["schemas"];
    let allowed: Vec<&str> =
        schemas["Status"]["enum"].as_array().unwrap().iter().map(|v| v.as_str().unwrap()).collect();
    assert_eq!(allowed, vec!["to_read", "reading", "read"]);
    assert!(schemas["StatusResponse"].is_object());
    assert!(schemas["StatusUpsertRequest"].is_object());
}
