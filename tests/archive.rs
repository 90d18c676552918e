use har_replay::archive::{archive_to_json, parse_archive};
use har_replay::har::Number;
use har_replay::json::Json;
use har_replay::wire::ParseError;

fn s(x: &str) -> Json {
    Json::Str(x.to_string())
}

fn obj(members: Vec<(&str, Json)>) -> Json {
    Json::Object(members.into_iter().map(|(k, v)| (k.to_string(), v)).collect())
}

fn pair(name: &str, value: &str) -> Json {
    obj(vec![("name", s(name)), ("value", s(value))])
}

fn request_json(method: &str) -> Json {
    obj(vec![
        ("method", s(method)),
        ("url", s("http://example.com/a?b=1")),
        ("httpVersion", s("HTTP/1.1")),
        ("cookies", Json::Array(vec![pair("sid", "42")])),
        ("headers", Json::Array(vec![pair("X-Test", "one"), pair("X-Test", "two")])),
        ("queryString", Json::Array(vec![pair("b", "1")])),
        (
            "postData",
            obj(vec![("mimeType", s("application/x-www-form-urlencoded")), ("text", s("a=1&b=2"))]),
        ),
        ("headersSize", Json::Int(-1)),
        ("bodySize", Json::Int(7)),
    ])
}

fn response_json() -> Json {
    obj(vec![
        ("status", Json::Int(200)),
        ("statusText", s("OK")),
        ("httpVersion", s("HTTP/1.1")),
        ("cookies", Json::Array(vec![])),
        ("headers", Json::Array(vec![pair("Content-Type", "text/plain")])),
        (
            "content",
            obj(vec![("size", Json::Int(5)), ("mimeType", s("text/plain")), ("text", s("hello"))]),
        ),
        ("redirectURL", s("")),
        ("headersSize", Json::Int(-1)),
        ("bodySize", Json::Int(5)),
    ])
}

fn timings_json() -> Json {
    obj(vec![
        ("blocked", Json::Int(-1)),
        ("dns", Json::Int(-1)),
        ("connect", Json::Num("1.5".to_string())),
        ("send", Json::Int(0)),
        ("wait", Json::Num("20.25".to_string())),
        ("receive", Json::Int(3)),
        ("ssl", Json::Int(-1)),
    ])
}

fn entry_members() -> Vec<(&'static str, Json)> {
    vec![
        ("startedDateTime", s("2024-01-01T00:00:00.000Z")),
        ("time", Json::Num("12.5".to_string())),
        ("request", request_json("POST")),
        ("response", response_json()),
        ("cache", obj(vec![])),
        ("timings", timings_json()),
    ]
}

fn archive_json(entries: Vec<Json>) -> Json {
    obj(vec![(
        "log",
        obj(vec![
            ("version", s("1.2")),
            ("creator", obj(vec![("name", s("WebInspector")), ("version", s("537.36"))])),
            ("entries", Json::Array(entries)),
        ]),
    )])
}

#[test]
fn minimal_archive_has_no_entries() {
    let a = parse_archive(&archive_json(vec![])).unwrap();
    assert_eq!(a.log.entries.len(), 0);
    assert_eq!(a.log.version, "1.2");
    assert_eq!(a.log.creator.name, "WebInspector");
    assert!(a.log.browser.is_none());
    assert!(a.log.pages.is_none());
}

#[test]
fn entry_without_request_is_a_format_error() {
    let mut members = entry_members();
    members.retain(|(k, _)| *k != "request");
    let doc = archive_json(vec![obj(entry_members()), obj(members)]);
    match parse_archive(&doc) {
        Err(ParseError::Format(m)) => assert_eq!(m, "log: entries: request: missing"),
        other => panic!("expected a format error, got {:?}", other),
    }
}

#[test]
fn absent_optional_members_read_as_absent() {
    let a = parse_archive(&archive_json(vec![obj(entry_members())])).unwrap();
    let e = &a.log.entries[0];
    assert!(e.server_ip_address.is_none());
    assert!(e.connection.is_none());
    assert!(e.cache.before_request.is_none());
    assert!(e.cache.after_request.is_none());
    assert!(e.response.content.encoding.is_none());
    let pd = e.request.post_data.as_ref().unwrap();
    assert!(pd.params.is_none());
    assert_eq!(pd.text.as_deref(), Some("a=1&b=2"));
}

#[test]
fn null_optional_members_read_as_absent() {
    let mut members = entry_members();
    members.push(("serverIPAddress", Json::Null));
    members.push(("connection", s("443")));
    let a = parse_archive(&archive_json(vec![obj(members)])).unwrap();
    let e = &a.log.entries[0];
    assert!(e.server_ip_address.is_none());
    assert_eq!(e.connection.as_deref(), Some("443"));
}

#[test]
fn negative_time_passes_through() {
    let mut members = entry_members();
    members.retain(|(k, _)| *k != "time");
    members.push(("time", Json::Int(-3)));
    let a = parse_archive(&archive_json(vec![obj(members)])).unwrap();
    assert!(matches!(a.log.entries[0].time, Number::Int(-3)));
    assert!(matches!(&a.log.entries[0].timings.wait, Number::Decimal(t) if t == "20.25"));
}

#[test]
fn mistyped_required_member_is_a_format_error() {
    let mut members = entry_members();
    members.retain(|(k, _)| *k != "time");
    members.push(("time", s("soon")));
    match parse_archive(&archive_json(vec![obj(members)])) {
        Err(ParseError::Format(m)) => {
            assert_eq!(m, "log: entries: time: wrong type: expected a number")
        }
        other => panic!("expected a format error, got {:?}", other),
    }
}

#[test]
fn cache_that_is_not_an_object_is_a_format_error() {
    for bad in [Json::Int(5), Json::Null, Json::Str("x".to_string()), Json::Array(vec![])] {
        let mut members = entry_members();
        members.retain(|(k, _)| *k != "cache");
        members.push(("cache", bad));
        match parse_archive(&archive_json(vec![obj(members)])) {
            Err(ParseError::Format(m)) => {
                assert_eq!(m, "log: entries: cache: wrong type: expected an object")
            }
            other => panic!("expected a format error, got {:?}", other),
        }
    }
}

#[test]
fn mistyped_header_value_names_its_member() {
    let mut members = entry_members();
    members.retain(|(k, _)| *k != "request");
    let mut req = request_json("GET");
    if let Json::Object(fields) = &mut req {
        fields[4].1 = Json::Array(vec![obj(vec![("name", s("A")), ("value", Json::Int(1))])]);
    }
    members.push(("request", req));
    match parse_archive(&archive_json(vec![obj(members)])) {
        Err(ParseError::Format(m)) => {
            assert_eq!(m, "log: entries: request: headers: value: wrong type: expected a string")
        }
        other => panic!("expected a format error, got {:?}", other),
    }
}

#[test]
fn wire_names_are_the_format_names() {
    let mut members = entry_members();
    members.retain(|(k, _)| *k != "startedDateTime");
    members.push(("started_date_time", s("2024-01-01T00:00:00.000Z")));
    match parse_archive(&archive_json(vec![obj(members)])) {
        Err(ParseError::Format(m)) => assert_eq!(m, "log: entries: startedDateTime: missing"),
        other => panic!("expected a format error, got {:?}", other),
    }
}

#[test]
fn document_that_is_not_an_object_is_a_format_error() {
    assert!(matches!(parse_archive(&Json::Array(vec![])), Err(ParseError::Format(m)) if !m.is_empty()));
    assert!(matches!(parse_archive(&obj(vec![])), Err(ParseError::Format(m)) if m == "log: missing"));
}

#[test]
fn round_trip_keeps_every_field_in_order() {
    let mut members = entry_members();
    members.push(("serverIPAddress", s("10.0.0.1")));
    let second = obj(vec![
        ("startedDateTime", s("2024-01-01T00:00:01.000Z")),
        ("time", Json::Int(4)),
        ("request", request_json("GET")),
        ("response", response_json()),
        (
            "cache",
            obj(vec![(
                "afterRequest",
                obj(vec![
                    ("lastAccess", s("2024-01-01")),
                    ("eTag", s("\"x\"")),
                    ("hitCount", Json::Int(2)),
                ]),
            )]),
        ),
        ("timings", timings_json()),
    ]);
    let a = parse_archive(&archive_json(vec![obj(members), second])).unwrap();
    let again = parse_archive(&archive_to_json(&a)).unwrap();
    assert_eq!(format!("{:?}", a), format!("{:?}", again));
    assert_eq!(again.log.entries.len(), 2);
    assert_eq!(again.log.entries[1].request.method, "GET");
    let headers = &again.log.entries[0].request.headers;
    assert_eq!(headers[0].value, "one");
    assert_eq!(headers[1].value, "two");
    assert_eq!(again.log.entries[1].cache.after_request.as_ref().unwrap().hit_count, 2);
}

#[test]
fn written_document_uses_the_format_names() {
    let a = parse_archive(&archive_json(vec![obj(entry_members())])).unwrap();
    let doc = archive_to_json(&a);
    let Json::Object(top) = &doc else { panic!("not an object") };
    let Json::Object(log) = &top[0].1 else { panic!("log is not an object") };
    let Json::Array(entries) = &log.iter().find(|(k, _)| k == "entries").unwrap().1 else {
        panic!("entries is not an array")
    };
    let Json::Object(entry) = &entries[0] else { panic!("entry is not an object") };
    assert_eq!(entry[0].0, "startedDateTime");
    let Json::Object(req) = &entry.iter().find(|(k, _)| k == "request").unwrap().1 else {
        panic!("request is not an object")
    };
    let keys: Vec<&str> = req.iter().map(|(k, _)| k.as_str()).collect();
    assert_eq!(
        keys,
        vec![
            "method", "url", "httpVersion", "cookies", "headers", "queryString", "postData",
            "headersSize", "bodySize"
        ]
    );
}
