//! Verb parsing and header composition.

use poor_postman::coordinator::{compose_headers, Request};
use poor_postman::method::{Method, SubmitError};

#[test]
fn recognized_verbs_parse_exactly() {
    assert_eq!(Method::from_text("GET"), Ok(Method::Get));
    assert_eq!(Method::from_text("POST"), Ok(Method::Post));
}

#[test]
fn unrecognized_verb_text_fails_with_invalid_method() {
    assert_eq!(Method::from_text("PATCH"), Err(SubmitError::InvalidMethod));
    assert_eq!(Method::from_text("get"), Err(SubmitError::InvalidMethod));
    assert_eq!(Method::from_text("Get"), Err(SubmitError::InvalidMethod));
    assert_eq!(Method::from_text(""), Err(SubmitError::InvalidMethod));
    assert_eq!(Method::from_text("GET "), Err(SubmitError::InvalidMethod));
}

#[test]
fn verb_text_round_trips() {
    assert_eq!(Method::from_text(Method::Get.as_text()), Ok(Method::Get));
    assert_eq!(Method::from_text(Method::Post.as_text()), Ok(Method::Post));
}

#[test]
fn only_post_carries_a_payload() {
    assert!(Method::Post.carries_payload());
    assert!(!Method::Get.carries_payload());
}

#[test]
fn required_headers_are_appended_after_the_callers() {
    let user = vec![(String::from("Authorization"), String::from("Bearer t"))];
    let composed = compose_headers(user, false);
    assert_eq!(composed.len(), 3);
    assert_eq!(composed[0].0, "Authorization");
    assert_eq!(composed[1], (String::from("User-Agent"), String::from("poor-postman")));
    assert_eq!(composed[2], (String::from("Accept"), String::from("application/json")));
}

#[test]
fn content_type_is_set_exactly_when_a_payload_is_sent() {
    let with_body = compose_headers(Vec::new(), true);
    assert_eq!(with_body.len(), 3);
    assert_eq!(with_body[2], (String::from("Content-Type"), String::from("application/json")));
    let without_body = compose_headers(Vec::new(), false);
    assert_eq!(without_body.len(), 2);
    assert!(without_body.iter().all(|h| h.0 != "Content-Type"));
}

#[test]
fn request_keeps_the_body_only_for_a_payload_verb() {
    let req = Request::new(
        Method::Get,
        String::from("http://example.test/x"),
        Vec::new(),
        Some(b"{}".to_vec()),
    );
    assert_eq!(req.body, None);
    assert_eq!(req.headers.len(), 2);

    let req = Request::new(
        Method::Post,
        String::from("http://example.test/x"),
        Vec::new(),
        Some(b"{}".to_vec()),
    );
    assert_eq!(req.body, Some(b"{}".to_vec()));
    assert_eq!(req.headers.len(), 3);
}
