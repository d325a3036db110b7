use tauri_plugin_any_sync::{
    GetRequest, GetResponse, ListRequest, ListResponse, PutRequest, PutResponse,
};

#[test]
fn test_put_request_structure() {
    let request = PutRequest {
        collection: "test_collection".to_string(),
        id: "test_id".to_string(),
        document_json: r#"{"key": "value"}"#.to_string(),
    };

    assert_eq!(request.collection, "test_collection");
    assert_eq!(request.id, "test_id");
    assert_eq!(request.document_json, r#"{"key": "value"}"#);
}

#[test]
fn test_put_response_structure() {
    let response = PutResponse { success: true };
    assert!(response.success);

    let response = PutResponse { success: false };
    assert!(!response.success);
}

#[test]
fn test_get_request_structure() {
    let request = GetRequest {
        collection: "test_collection".to_string(),
        id: "test_id".to_string(),
    };

    assert_eq!(request.collection, "test_collection");
    assert_eq!(request.id, "test_id");
}

#[test]
fn test_get_response_structure() {
    let response = GetResponse::from_lookup(true, r#"{"key": "value"}"#.to_string());
    assert!(response.found);
    assert_eq!(response.document_json.unwrap(), r#"{"key": "value"}"#);

    let response = GetResponse::from_lookup(false, String::new());
    assert!(!response.found);
    assert!(response.document_json.is_none());
}

#[test]
fn test_list_request_structure() {
    let request = ListRequest {
        collection: "test_collection".to_string(),
    };

    assert_eq!(request.collection, "test_collection");
}

#[test]
fn test_list_response_structure() {
    let response = ListResponse {
        ids: vec!["id1".to_string(), "id2".to_string(), "id3".to_string()],
    };

    assert_eq!(response.ids.len(), 3);
    assert_eq!(response.ids[0], "id1");
    assert_eq!(response.ids[1], "id2");
    assert_eq!(response.ids[2], "id3");

    let response = ListResponse { ids: vec![] };
    assert_eq!(response.ids.len(), 0);
}

#[test]
fn test_json_document_strings() {
    let request = PutRequest {
        collection: "users".to_string(),
        id: "user1".to_string(),
        document_json: r#"{"name": "Alice", "age": 30}"#.to_string(),
    };
    assert!(!request.document_json.is_empty());
    assert!(request.document_json.starts_with('{'));
    assert!(request.document_json.ends_with('}'));

    let request = PutRequest {
        collection: "empty".to_string(),
        id: "1".to_string(),
        document_json: "{}".to_string(),
    };
    assert_eq!(request.document_json, "{}");

    let request = PutRequest {
        collection: "config".to_string(),
        id: "app1".to_string(),
        document_json: r#"{"user": {"name": "Bob", "settings": {"theme": "dark"}}}"#.to_string(),
    };
    assert!(request.document_json.contains("theme"));

    let request = PutRequest {
        collection: "items".to_string(),
        id: "list1".to_string(),
        document_json: r#"[1, 2, 3, 4, 5]"#.to_string(),
    };
    assert!(request.document_json.starts_with('['));
    assert!(request.document_json.ends_with(']'));
}
