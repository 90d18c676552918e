use har_replay::har::{NameValue, Param, PostData, Request};
use har_replay::json::Json;
use har_replay::replay::{
    parse_method, plan_replay, response_header, response_headers, Method, ReplayError,
    ReplayResult,
};

fn nv(name: &str, value: &str) -> NameValue {
    NameValue { name: name.to_string(), value: value.to_string() }
}

fn request(method: &str, post_data: Option<PostData>) -> Request {
    Request {
        method: method.to_string(),
        url: "http://127.0.0.1:9/echo?q=1".to_string(),
        http_version: "HTTP/1.1".to_string(),
        cookies: vec![],
        headers: vec![nv("X-Test", "first"), nv("Accept", "*/*"), nv("X-Test", "second")],
        query_string: vec![nv("q", "2")],
        post_data,
        headers_size: -1,
        body_size: 0,
    }
}

#[test]
fn trace_is_refused_before_any_traffic() {
    match plan_replay(request("TRACE", None)) {
        Err(ReplayError::UnsupportedMethod(t)) => assert_eq!(t, "TRACE"),
        other => panic!("expected an unsupported method, got {:?}", other),
    }
}

#[test]
fn methods_are_matched_case_sensitively() {
    assert!(matches!(parse_method("get"), Err(ReplayError::UnsupportedMethod(t)) if t == "get"));
    assert!(matches!(parse_method(""), Err(ReplayError::UnsupportedMethod(_))));
    assert!(matches!(parse_method("CONNECT"), Err(ReplayError::UnsupportedMethod(_))));
}

#[test]
fn every_method_token_reads_back() {
    let all = [
        Method::Get,
        Method::Post,
        Method::Put,
        Method::Delete,
        Method::Head,
        Method::Options,
        Method::Patch,
    ];
    let tokens = ["GET", "POST", "PUT", "DELETE", "HEAD", "OPTIONS", "PATCH"];
    for (m, t) in all.iter().zip(tokens.iter()) {
        assert_eq!(m.token(), *t);
        assert_eq!(parse_method(t).unwrap(), *m);
    }
}

#[test]
fn repeated_headers_are_kept_in_order() {
    let plan = plan_replay(request("GET", None)).unwrap();
    assert_eq!(plan.method, Method::Get);
    assert_eq!(plan.url, "http://127.0.0.1:9/echo?q=1");
    let pairs: Vec<(&str, &str)> =
        plan.headers.iter().map(|h| (h.name.as_str(), h.value.as_str())).collect();
    assert_eq!(pairs, vec![("X-Test", "first"), ("Accept", "*/*"), ("X-Test", "second")]);
    assert!(plan.body.is_none());
}

#[test]
fn post_body_is_sent_verbatim() {
    let pd = PostData {
        mime_type: "application/x-www-form-urlencoded".to_string(),
        text: Some("a=1&b=2".to_string()),
        params: Some(vec![Param {
            name: "c".to_string(),
            value: Some("3".to_string()),
            file_name: None,
            content_type: None,
        }]),
    };
    let plan = plan_replay(request("POST", Some(pd))).unwrap();
    assert_eq!(plan.method, Method::Post);
    assert_eq!(plan.body.as_deref(), Some("a=1&b=2"));
}

#[test]
fn form_params_without_text_send_no_body() {
    let pd = PostData {
        mime_type: "multipart/form-data".to_string(),
        text: None,
        params: Some(vec![Param {
            name: "c".to_string(),
            value: Some("3".to_string()),
            file_name: None,
            content_type: None,
        }]),
    };
    let plan = plan_replay(request("PUT", Some(pd))).unwrap();
    assert_eq!(plan.method, Method::Put);
    assert!(plan.body.is_none());
}

#[test]
fn header_value_that_is_not_text_reads_as_empty() {
    let h = response_header(&"X-Bin".to_string(), &None);
    assert_eq!(h.name, "X-Bin");
    assert_eq!(h.value, "");
    let raw = vec![
        ("set-cookie".to_string(), Some("a=1".to_string())),
        ("x-bin".to_string(), None),
        ("set-cookie".to_string(), Some("b=2".to_string())),
    ];
    let hs = response_headers(&raw);
    let pairs: Vec<(&str, &str)> =
        hs.iter().map(|h| (h.name.as_str(), h.value.as_str())).collect();
    assert_eq!(pairs, vec![("set-cookie", "a=1"), ("x-bin", ""), ("set-cookie", "b=2")]);
}

#[test]
fn result_is_written_as_status_headers_body() {
    let r = ReplayResult {
        status: 404,
        headers: vec![nv("content-type", "text/plain")],
        body: "not here".to_string(),
    };
    let Json::Object(members) = r.to_json() else { panic!("not an object") };
    assert_eq!(members.len(), 3);
    assert_eq!(members[0].0, "status");
    assert!(matches!(members[0].1, Json::Int(404)));
    assert_eq!(members[1].0, "headers");
    let Json::Array(items) = &members[1].1 else { panic!("headers is not an array") };
    let Json::Object(h) = &items[0] else { panic!("header is not an object") };
    assert!(matches!(&h[0], (k, Json::Str(v)) if k == "name" && v == "content-type"));
    assert!(matches!(&h[1], (k, Json::Str(v)) if k == "value" && v == "text/plain"));
    assert!(matches!(&members[2], (k, Json::Str(b)) if k == "body" && b == "not here"));
}
