use granita::headers::Headers;
use granita::request::{
    BuildHttpResponseError, HttpRequest, HttpRequestError, HttpResponseBuilder, Method,
};

#[test]
fn get_starts_with_method_url_and_no_headers() {
    let request = HttpRequest::get("https://example.com");
    assert_eq!(request.method, Method::Get);
    assert_eq!(request.url, "https://example.com");
    assert!(request.headers.is_empty());
}

#[test]
fn build_rejects_empty_url() {
    let result = HttpRequest::get("").build();
    assert!(matches!(result, Err(HttpRequestError::InvalidUrl)));
}

#[test]
fn build_rejects_empty_url_with_headers() {
    let result = HttpRequest::get("").header("accept", "text/plain").build();
    assert!(matches!(result, Err(HttpRequestError::InvalidUrl)));
}

#[test]
fn build_keeps_valid_request() {
    let request = HttpRequest::get("http://localhost/test")
        .header("accept", "text/plain")
        .build()
        .unwrap();
    assert_eq!(request.method, Method::Get);
    assert_eq!(request.url, "http://localhost/test");
    assert_eq!(request.headers.len(), 1);
    assert_eq!(request.headers.get("accept").unwrap(), "text/plain");
}

#[test]
fn header_twice_keeps_last_value() {
    let request = HttpRequest::get("http://localhost")
        .header("x-id", "first")
        .header("x-id", "second")
        .build()
        .unwrap();
    assert_eq!(request.headers.len(), 1);
    assert_eq!(request.headers.get("x-id").unwrap(), "second");
}

#[test]
fn headers_with_distinct_names_are_all_kept() {
    let request = HttpRequest::get("http://localhost")
        .header("a", "1")
        .header("b", "2")
        .header("a", "3");
    assert_eq!(request.headers.len(), 2);
    assert_eq!(request.headers.get("a").unwrap(), "3");
    assert_eq!(request.headers.get("b").unwrap(), "2");
    assert!(request.headers.get("c").is_none());
}

#[test]
fn headers_insert_and_lookup() {
    let headers = Headers::new();
    assert!(headers.is_empty());
    assert_eq!(headers.len(), 0);
    let headers = headers.insert("k".to_string(), "v".to_string());
    assert!(!headers.is_empty());
    assert_eq!(headers.get("k").unwrap(), "v");
    assert!(headers.get("K").is_none());
}

#[test]
fn response_build_without_status_fails() {
    let result = HttpResponseBuilder::new().body("text").insert_header("a", "b").build();
    assert!(matches!(result, Err(BuildHttpResponseError::MissingStatus)));
}

#[test]
fn response_build_of_new_builder_fails() {
    let result = HttpResponseBuilder::new().build();
    assert!(matches!(result, Err(BuildHttpResponseError::MissingStatus)));
}

#[test]
fn response_body_defaults_to_empty() {
    let response = HttpResponseBuilder::new().status(404).build().unwrap();
    assert_eq!(response.status, 404);
    assert_eq!(response.body, "");
    assert!(response.headers.is_empty());
}

#[test]
fn response_build_keeps_every_field() {
    let response = HttpResponseBuilder::new()
        .insert_header("content-type", "text/plain")
        .status(201)
        .body("created")
        .insert_header("content-type", "text/html")
        .build()
        .unwrap();
    assert_eq!(response.status, 201);
    assert_eq!(response.body, "created");
    assert_eq!(response.headers.len(), 1);
    assert_eq!(response.headers.get("content-type").unwrap(), "text/html");
}

#[test]
fn response_status_set_twice_keeps_last() {
    let response = HttpResponseBuilder::new().status(500).status(204).build().unwrap();
    assert_eq!(response.status, 204);
}

#[test]
fn headers_compare_regardless_of_order() {
    let a = Headers::new()
        .insert("x".to_string(), "1".to_string())
        .insert("y".to_string(), "2".to_string());
    let b = Headers::new()
        .insert("y".to_string(), "2".to_string())
        .insert("x".to_string(), "0".to_string())
        .insert("x".to_string(), "1".to_string());
    assert!(a == b);
    let c = Headers::new().insert("x".to_string(), "1".to_string());
    assert!(a != c);
    let d = Headers::new()
        .insert("x".to_string(), "1".to_string())
        .insert("y".to_string(), "3".to_string());
    assert!(a != d);
    let e = Headers::new()
        .insert("x".to_string(), "1".to_string())
        .insert("z".to_string(), "2".to_string());
    assert!(a != e);
}

#[test]
fn responses_compare_field_by_field() {
    let first = HttpResponseBuilder::new()
        .status(200)
        .insert_header("a", "1")
        .insert_header("b", "2")
        .body("x")
        .build()
        .unwrap();
    let second = HttpResponseBuilder::new()
        .insert_header("b", "2")
        .insert_header("a", "1")
        .body("x")
        .status(200)
        .build()
        .unwrap();
    assert_eq!(first, second);
    let third = HttpResponseBuilder::new().status(200).body("x").build().unwrap();
    assert_ne!(first, third);
}

#[test]
fn response_builder_default_is_new() {
    let result = HttpResponseBuilder::default().build();
    assert!(matches!(result, Err(BuildHttpResponseError::MissingStatus)));
    let response = HttpResponseBuilder::default().status(200).build().unwrap();
    assert_eq!(response.body, "");
    assert!(response.headers.is_empty());
}
