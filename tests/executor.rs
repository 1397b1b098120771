use request_core::executor::{finish_response, prepare_request, start_request, ExecError, RequestSpec};

fn spec(method: &str, body: Option<&str>) -> RequestSpec {
    RequestSpec {
        method: method.to_string(),
        url: "http://127.0.0.1:9/x".to_string(),
        headers: vec![("Accept".to_string(), "text/plain".to_string())],
        body: body.map(|b| b.to_string()),
        timeout: 1,
    }
}

#[test]
fn absent_body_sends_no_body() {
    let builder = start_request(&spec("GET", None)).unwrap();
    let request = builder.build().unwrap();
    assert!(request.body().is_none());
    assert_eq!(request.url().as_str(), "http://127.0.0.1:9/x");
    assert_eq!(request.method().as_str(), "GET");
    assert_eq!(request.headers().get("Accept").unwrap(), "text/plain");
}

#[test]
fn empty_body_is_sent_as_empty_body() {
    let builder = start_request(&spec("POST", Some(""))).unwrap();
    let request = builder.build().unwrap();
    let body = request.body().unwrap();
    assert_eq!(body.as_bytes(), Some(&b""[..]));
}

#[test]
fn custom_method_token_is_accepted() {
    let builder = start_request(&spec("PURGE", None)).unwrap();
    assert_eq!(builder.build().unwrap().method().as_str(), "PURGE");
}

#[test]
fn invalid_method_is_rejected() {
    let client = reqwest::Client::new();
    match prepare_request(&client, &spec("BAD METHOD", None)) {
        Err(ExecError::InvalidMethod(_)) => {},
        _ => panic!("expected InvalidMethod"),
    }
    match start_request(&spec("", None)) {
        Err(ExecError::InvalidMethod(_)) => {},
        _ => panic!("expected InvalidMethod"),
    }
}

#[test]
fn response_is_normalised() {
    let raw = vec![
        ("content-type".to_string(), Some("text/plain".to_string())),
        ("x-bin".to_string(), None),
    ];
    let r = finish_response(200, &raw, Ok("héllo".to_string()), 12).unwrap();
    assert_eq!(r.status, 200);
    assert_eq!(r.headers, vec![("content-type".to_string(), "text/plain".to_string())]);
    assert_eq!(r.body, "héllo");
    assert_eq!(r.size_bytes, 6);
    assert_eq!(r.size_bytes, r.body.len());
    assert_eq!(r.duration_ms, 12);
}

#[test]
fn unreadable_body_fails() {
    let r = finish_response(200, &vec![], Err("bad".to_string()), 3);
    assert_eq!(r.unwrap_err(), ExecError::BodyReadError("bad".to_string()));
}

#[test]
fn error_messages() {
    assert_eq!(
        ExecError::ClientBuildError("x".to_string()).message(),
        "Failed to create client: x"
    );
    assert_eq!(ExecError::InvalidMethod("x".to_string()).message(), "Invalid HTTP method: x");
    assert_eq!(ExecError::TransportError("x".to_string()).message(), "Request failed: x");
    assert_eq!(
        ExecError::BodyReadError("x".to_string()).message(),
        "Failed to read response body: x"
    );
}

#[test]
fn header_names_take_lower_case_and_values_stay() {
    let mut s = spec("GET", None);
    s.headers.push(("X-Custom".to_string(), "Mixed Case".to_string()));
    let request = start_request(&s).unwrap().build().unwrap();
    assert_eq!(request.headers().len(), 2);
    let names: Vec<&str> = request.headers().keys().map(|k| k.as_str()).collect();
    assert!(names.contains(&"x-custom"));
    assert_eq!(request.headers().get("x-custom").unwrap(), "Mixed Case");
}

#[test]
fn many_headers_within_bound_are_attached() {
    let mut s = spec("GET", None);
    s.headers = (0..request_core::executor::MAX_HEADERS)
        .map(|i| (format!("h{}", i), "v".to_string()))
        .collect();
    let request = start_request(&s).unwrap().build().unwrap();
    assert_eq!(request.headers().len(), request_core::executor::MAX_HEADERS);
}
