// Responses with their headers by name.

use facingtime_core::exchange::{HttpRequest, HttpResponse};

#[test]
fn new_response_is_bare() {
    let response = HttpResponse::new(404);
    assert_eq!(response.status_code(), 404);
    assert!(response.body().is_none());
    assert!(response.header("Content-Type").is_none());
}

#[test]
fn with_body_sets_body_and_content_type() {
    let response = HttpResponse::new(200).with_body("Not Found".to_string(), "text/plain");
    assert_eq!(response.status_code(), 200);
    assert_eq!(response.body().unwrap(), "Not Found");
    assert_eq!(response.header("Content-Type").unwrap(), "text/plain");
    assert!(response.header("content-type").is_none());
    assert!(response.header("Content-Length").is_none());
}

#[test]
fn with_body_replaces_what_was_there() {
    let response = HttpResponse::new(200)
        .with_body("<p>".to_string(), "text/html")
        .with_body("{}".to_string(), "application/json");
    assert_eq!(response.body().unwrap(), "{}");
    assert_eq!(response.header("Content-Type").unwrap(), "application/json");
}

#[test]
fn request_holds_what_it_is_given() {
    let request = HttpRequest {
        method: "GET".to_string(),
        path: "/".to_string(),
        headers: vec![("X-Limit".to_string(), "5".to_string())],
        body: None,
    };
    assert_eq!(request.method, "GET");
    assert_eq!(request.headers.len(), 1);
    assert!(request.body.is_none());
}
