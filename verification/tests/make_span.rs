use tracing_otel::{AxumOtelSpanCreator, FieldValue, Header, HttpVersion, Level, RequestInfo};

fn header(name: &str, value: &str) -> Header {
    Header {
        name: name.to_string(),
        value: value.as_bytes().to_vec(),
    }
}

fn get_root(headers: Vec<Header>) -> RequestInfo {
    RequestInfo {
        method: "GET".to_string(),
        path: "/".to_string(),
        query: None,
        scheme: None,
        version: HttpVersion::Http11,
        headers,
    }
}

#[test]
fn axum_span_records_route_peer_and_method() {
    let mut request = get_root(vec![
        header("host", "example.com"),
        header("user-agent", "integration-test"),
        header("x-forwarded-proto", "https"),
    ]);
    request.query = Some("foo=bar".to_string());
    let creator = AxumOtelSpanCreator::new().level(Level::INFO);
    let span = creator.make_span(&request, Some("/"), Some("192.0.2.10"));

    assert_eq!(span.level, Level::INFO);
    assert_eq!(span.get("otel.name"), Some(&FieldValue::Str("GET /".to_string())));
    assert_eq!(
        span.get("otel.kind"),
        Some(&FieldValue::Debug("Server".to_string()))
    );
    assert_eq!(span.get("http.route"), Some(&FieldValue::Str("/".to_string())));
    assert_eq!(
        span.get("client.address"),
        Some(&FieldValue::Display("192.0.2.10".to_string()))
    );
    assert_eq!(
        span.get("http.request.method"),
        Some(&FieldValue::Display("GET".to_string()))
    );
    assert_eq!(span.get("url.query"), Some(&FieldValue::Str("foo=bar".to_string())));
    assert_eq!(
        span.get("server.address"),
        Some(&FieldValue::Str("example.com".to_string()))
    );
}

#[test]
fn axum_span_omits_missing_peer() {
    let request = get_root(vec![]);
    let span = AxumOtelSpanCreator::new()
        .level(Level::INFO)
        .make_span(&request, Some("/"), None);
    assert_eq!(span.get("otel.name"), Some(&FieldValue::Str("GET /".to_string())));
    assert_eq!(span.get("client.address"), Some(&FieldValue::Empty));
}

#[test]
fn axum_span_without_route_is_named_after_method() {
    let request = get_root(vec![]);
    let span = AxumOtelSpanCreator::new().make_span(&request, None, None);
    assert_eq!(span.get("otel.name"), Some(&FieldValue::Str("GET".to_string())));
    assert_eq!(span.get("http.route"), Some(&FieldValue::Empty));
    assert_eq!(span.level, Level::TRACE);
}

#[test]
fn default_creator_traces() {
    let request = get_root(vec![]);
    let a = AxumOtelSpanCreator::default().make_span(&request, None, None);
    let b = AxumOtelSpanCreator::new().make_span(&request, None, None);
    assert_eq!(a.level, Level::TRACE);
    assert_eq!(a, b);
    let c = AxumOtelSpanCreator::new()
        .level(Level::ERROR)
        .level(Level::WARN)
        .make_span(&request, None, None);
    assert_eq!(c.level, Level::WARN);
}

#[test]
fn span_name_joins_method_and_route() {
    assert_eq!(tracing_otel::make_span::span_name("POST", Some("/items/{id}")), "POST /items/{id}");
    assert_eq!(tracing_otel::make_span::span_name("DELETE", None), "DELETE");
}
