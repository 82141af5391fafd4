use wasol_consumer::http::{encode_body, make_request, response_outcome, HttpMethod, RequestError};
use wasol_consumer::records::Request;

fn request(method: &str, body: Option<Vec<(String, String)>>) -> Request {
    Request {
        action: "a".to_string(),
        method: method.to_string(),
        url: "http://example.test/hook".to_string(),
        headers: vec![("Authorization".to_string(), "Bearer t".to_string())],
        body,
        params: None,
    }
}

#[test]
fn post_with_body_is_encoded() {
    let body = vec![("text".to_string(), "hi".to_string()), ("to".to_string(), "5511".to_string())];
    let call = make_request(request("POST", Some(body))).unwrap_or_else(|_| panic!("request refused"));
    assert_eq!(call.method, HttpMethod::Post);
    assert_eq!(call.body.as_deref(), Some("{\"text\":\"hi\",\"to\":\"5511\"}"));
    assert_eq!(call.headers.len(), 1);
}

#[test]
fn get_keeps_its_body() {
    let body = vec![("q".to_string(), "1".to_string())];
    let call = make_request(request("GET", Some(body))).unwrap_or_else(|_| panic!("request refused"));
    assert_eq!(call.method, HttpMethod::Get);
    assert_eq!(call.body.as_deref(), Some("{\"q\":\"1\"}"));
}

#[test]
fn lower_case_or_other_method_is_refused() {
    assert!(matches!(make_request(request("get", None)), Err(RequestError::UnsupportedMethod)));
    assert!(matches!(make_request(request("PUT", None)), Err(RequestError::UnsupportedMethod)));
}

#[test]
fn body_strings_are_escaped() {
    let body = vec![("k\"".to_string(), "line\nbreak".to_string())];
    assert_eq!(encode_body(&body), "{\"k\\\"\":\"line\\nbreak\"}");
    assert_eq!(encode_body(&vec![]), "{}");
    let controls = vec![("c".to_string(), "\u{1}\t\u{8}\u{c}\r\\é/".to_string())];
    assert_eq!(encode_body(&controls), "{\"c\":\"\\u0001\\t\\b\\f\\r\\\\é/\"}");
}

#[test]
fn status_outcomes() {
    assert_eq!(response_outcome(200), Ok(()));
    assert_eq!(response_outcome(299), Ok(()));
    assert_eq!(response_outcome(199), Err(RequestError::Status(199)));
    assert_eq!(response_outcome(300), Err(RequestError::Status(300)));
    assert_eq!(response_outcome(404), Err(RequestError::Status(404)));
}
