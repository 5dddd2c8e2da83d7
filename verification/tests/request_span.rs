use tracing_otel::{
    field, find_header, make_request_span, value_text, FieldValue, Header, HttpVersion, Level,
    RequestInfo, SpanRecord,
};

fn header(name: &str, value: &str) -> Header {
    Header {
        name: name.to_string(),
        value: value.as_bytes().to_vec(),
    }
}

fn request(
    method: &str,
    path: &str,
    query: Option<&str>,
    scheme: Option<&str>,
    version: HttpVersion,
    headers: Vec<Header>,
) -> RequestInfo {
    RequestInfo {
        method: method.to_string(),
        path: path.to_string(),
        query: query.map(|q| q.to_string()),
        scheme: scheme.map(|s| s.to_string()),
        version,
        headers,
    }
}

/// The text that a field exports, if it holds a value.
fn span_attr(span: &SpanRecord, key: &str) -> Option<String> {
    match span.get(key) {
        None | Some(FieldValue::Empty) => None,
        Some(FieldValue::Str(s)) | Some(FieldValue::Display(s)) | Some(FieldValue::Debug(s)) => {
            Some(s.clone())
        }
        Some(FieldValue::I64(i)) => Some(i.to_string()),
    }
}

#[test]
fn request_span_records_shared_http_fields() {
    // POST https://example.com/items?kind=test over HTTP/2
    let request = request(
        "POST",
        "/items",
        Some("kind=test"),
        Some("https"),
        HttpVersion::Http2,
        vec![
            header("host", "example.com"),
            header("user-agent", "span-test"),
            header("x-request-id", "request-123"),
        ],
    );
    let request_span = make_request_span(Level::INFO, &request, &vec![]);

    let expected = [
        ("http.request.method", "POST"),
        ("server.address", "example.com"),
        ("network.protocol.name", "http"),
        ("network.protocol.version", "2"),
        ("url.path", "/items"),
        ("url.query", "kind=test"),
        ("url.scheme", "https"),
        ("user_agent.original", "span-test"),
        ("request_id", "request-123"),
    ];
    for (key, value) in expected {
        assert_eq!(
            span_attr(&request_span, key),
            Some(value.to_string()),
            "{key}"
        );
    }

    for deprecated in [
        "http.method",
        "http.status_code",
        "http.target",
        "http.host",
        "http.user_agent",
    ] {
        assert_eq!(span_attr(&request_span, deprecated), None, "{deprecated}");
    }
}

#[test]
fn request_span_omits_missing_optional_fields() {
    let request = request("GET", "/items", None, None, HttpVersion::Http11, vec![]);
    let request_span = make_request_span(Level::INFO, &request, &vec![]);

    for missing in [
        "client.address",
        "http.route",
        "server.address",
        "url.query",
        "url.scheme",
        "user_agent.original",
        "request_id",
    ] {
        assert_eq!(span_attr(&request_span, missing), None, "{missing}");
    }
    assert_eq!(
        span_attr(&request_span, "network.protocol.version"),
        Some("1.1".to_string())
    );
}

#[test]
fn adapter_customization_runs_before_parent_materializes_span() {
    let request = request("GET", "/items", None, None, HttpVersion::Http11, vec![header(
        "traceparent",
        "00-4bf92f3577b34da6a3ce929d0e0e4736-00f067aa0ba902b7-01",
    )]);
    let customize = vec![
        field("http.route", FieldValue::Str("/items".to_string())),
        field("client.address", FieldValue::Display("192.0.2.1".to_string())),
        field("otel.name", FieldValue::Str("GET /items".to_string())),
        field("otel.kind", FieldValue::Debug("Server".to_string())),
    ];
    let request_span = make_request_span(Level::INFO, &request, &customize);

    assert_eq!(span_attr(&request_span, "otel.name"), Some("GET /items".to_string()));
    assert_eq!(
        request_span.get("otel.kind"),
        Some(&FieldValue::Debug("Server".to_string()))
    );
    assert_eq!(
        span_attr(&request_span, "http.route"),
        Some("/items".to_string())
    );
    assert_eq!(
        span_attr(&request_span, "client.address"),
        Some("192.0.2.1".to_string())
    );
}

#[test]
fn request_span_is_named_request_at_the_given_level() {
    let request = request("GET", "/", None, None, HttpVersion::Http11, vec![]);
    let span = make_request_span(Level::WARN, &request, &vec![]);
    assert_eq!(span.name, "request");
    assert_eq!(span.level, Level::WARN);
    let names: Vec<&str> = span.fields.iter().map(|f| f.name.as_str()).collect();
    assert_eq!(
        names,
        vec![
            "client.address",
            "http.request.method",
            "http.route",
            "http.response.status_code",
            "network.protocol.name",
            "network.protocol.version",
            "otel.name",
            "otel.kind",
            "otel.status_code",
            "otel.status_description",
            "request_id",
            "server.address",
            "trace_id",
            "url.path",
            "url.query",
            "url.scheme",
            "user_agent.original",
        ]
    );
    assert_eq!(
        span.get("http.request.method"),
        Some(&FieldValue::Display("GET".to_string()))
    );
}

#[test]
fn customization_last_record_wins_and_undeclared_is_ignored() {
    let request = request("GET", "/a", Some("x=1"), None, HttpVersion::Http11, vec![]);
    let customize = vec![
        field("http.route", FieldValue::Str("/first".to_string())),
        field("not.declared", FieldValue::Str("ignored".to_string())),
        field("url.query", FieldValue::Str("y=2".to_string())),
        field("http.route", FieldValue::Str("/second".to_string())),
    ];
    let span = make_request_span(Level::DEBUG, &request, &customize);
    assert_eq!(span_attr(&span, "http.route"), Some("/second".to_string()));
    assert_eq!(span_attr(&span, "url.query"), Some("y=2".to_string()));
    assert_eq!(span.get("not.declared"), None);
    assert_eq!(span.fields.len(), 17);
    assert_eq!(span_attr(&span, "url.path"), Some("/a".to_string()));
}

#[test]
fn protocol_versions_are_written_as_in_semantic_conventions() {
    let cases = [
        (HttpVersion::Http09, Some("0.9")),
        (HttpVersion::Http10, Some("1.0")),
        (HttpVersion::Http11, Some("1.1")),
        (HttpVersion::Http2, Some("2")),
        (HttpVersion::Http3, Some("3")),
        (HttpVersion::Other, None),
    ];
    for (version, text) in cases {
        let request = request("GET", "/", None, None, version, vec![]);
        let span = make_request_span(Level::INFO, &request, &vec![]);
        assert_eq!(
            span_attr(&span, "network.protocol.version"),
            text.map(|t| t.to_string())
        );
    }
}

#[test]
fn header_lookup_takes_the_first_header_of_a_name_in_any_case() {
    let headers = vec![
        header("Accept", "*/*"),
        header("HOST", "first.example"),
        header("host", "second.example"),
    ];
    assert_eq!(find_header(&headers, "host"), Some("first.example".to_string()));
    assert_eq!(find_header(&headers, "user-agent"), None);

    let opaque = vec![
        Header {
            name: "user-agent".to_string(),
            value: "caf\u{e9}".as_bytes().to_vec(),
        },
        header("user-agent", "later"),
    ];
    assert_eq!(find_header(&opaque, "user-agent"), None);

    let request = request("GET", "/", None, None, HttpVersion::Http11, opaque);
    let span = make_request_span(Level::INFO, &request, &vec![]);
    assert_eq!(span_attr(&span, "user_agent.original"), None);
}

#[test]
fn header_values_are_text_only_when_visible_ascii() {
    assert_eq!(value_text(&b"a\tb ~".to_vec()), Some("a\tb ~".to_string()));
    assert_eq!(value_text(&b"".to_vec()), Some(String::new()));
    assert_eq!(value_text(&b"bad\x7f".to_vec()), None);
    assert_eq!(value_text(&b"line\nbreak".to_vec()), None);
    assert_eq!(value_text(&vec![0xc3, 0xa9]), None);
}
