use tracing_otel::{dyn_event, dyn_span, field, FieldValue, Level};

#[test]
fn test_dyn_event_basic_usage() {
    let level = Level::INFO;
    // Test all log levels
    for message in [
        "error message",
        "warning message",
        "info message",
        "debug message",
        "trace message",
    ] {
        let event = dyn_event(level, vec![], Some(message));
        assert_eq!(event.level, Level::INFO);
        assert_eq!(event.message, Some(message.to_string()));
        assert!(event.fields.is_empty());
    }
}

#[test]
fn test_dyn_event_with_fields() {
    let level = Level::INFO;
    let event = dyn_event(
        level,
        vec![
            field("field1", FieldValue::Str("value1".to_string())),
            field("field2", FieldValue::I64(42)),
        ],
        Some("message with fields"),
    );
    assert_eq!(event.level, Level::INFO);
    assert_eq!(event.message, Some("message with fields".to_string()));
    assert_eq!(event.fields[0].name, "field1");
    assert_eq!(event.fields[1].value, FieldValue::I64(42));

    let request_id = "uuid";
    let event = dyn_event(
        level,
        vec![field("request_id", FieldValue::Display(request_id.to_string()))],
        Some("processing request"),
    );
    assert_eq!(event.fields[0].value, FieldValue::Display("uuid".to_string()));

    let event = dyn_event(
        level,
        vec![field("request_id", FieldValue::Display(request_id.to_string()))],
        None,
    );
    assert_eq!(event.message, None);
    assert_eq!(event.fields.len(), 1);
}

#[test]
fn test_dyn_span() {
    let level = Level::INFO;
    let span = dyn_span(level, "span message", vec![]);
    assert_eq!(span.level, Level::INFO);
    assert_eq!(span.name, "span message");
    assert!(span.fields.is_empty());
}

#[test]
fn test_dyn_span_with_fields() {
    let level = Level::DEBUG;
    let span = dyn_span(
        level,
        "operation",
        vec![
            field("operation_type", FieldValue::Str("database_query".to_string())),
            field("duration_ms", FieldValue::I64(150)),
        ],
    );
    assert_eq!(span.level, Level::DEBUG);
    assert_eq!(span.name, "operation");
    assert_eq!(
        span.get("operation_type"),
        Some(&FieldValue::Str("database_query".to_string()))
    );
    assert_eq!(span.get("duration_ms"), Some(&FieldValue::I64(150)));
}

#[test]
fn every_level_is_kept() {
    for level in [Level::ERROR, Level::WARN, Level::INFO, Level::DEBUG, Level::TRACE] {
        assert_eq!(dyn_event(level, vec![], None).level, level);
        assert_eq!(dyn_span(level, "s", vec![]).level, level);
    }
}

#[test]
fn recording_reads_back_and_ignores_undeclared_fields() {
    let mut span = dyn_span(
        Level::TRACE,
        "s",
        vec![
            field("a", FieldValue::Empty),
            field("b", FieldValue::I64(1)),
        ],
    );
    span.record("a", FieldValue::Str("x".to_string()));
    assert_eq!(span.get("a"), Some(&FieldValue::Str("x".to_string())));
    assert_eq!(span.get("b"), Some(&FieldValue::I64(1)));
    span.record("c", FieldValue::I64(7));
    assert_eq!(span.get("c"), None);
    assert_eq!(span.fields.len(), 2);
    span.record("b", FieldValue::Debug("y".to_string()));
    assert_eq!(span.get("b"), Some(&FieldValue::Debug("y".to_string())));
    assert_eq!(span.get("a"), Some(&FieldValue::Str("x".to_string())));
}

#[test]
fn recording_a_repeated_name_sets_the_first_field() {
    let mut span = dyn_span(
        Level::INFO,
        "s",
        vec![field("a", FieldValue::Empty), field("a", FieldValue::Empty)],
    );
    span.record("a", FieldValue::I64(3));
    assert_eq!(span.fields[0].value, FieldValue::I64(3));
    assert_eq!(span.fields[1].value, FieldValue::Empty);
    assert_eq!(span.get("a"), Some(&FieldValue::I64(3)));
}
