use tracing_otel::{
    exporter_error_context, exporter_transport, parse_protocol, protocol_for_signal,
    ExporterTransport, Protocol,
};

#[test]
fn test_parse_protocol() {
    assert_eq!(parse_protocol("grpc"), Some(Protocol::Grpc));
    assert_eq!(parse_protocol("GRPC"), Some(Protocol::Grpc));
    assert_eq!(parse_protocol("http/protobuf"), Some(Protocol::HttpBinary));
    assert_eq!(parse_protocol("http/proto"), Some(Protocol::HttpBinary));
    assert_eq!(parse_protocol("http/json"), Some(Protocol::HttpJson));
    assert_eq!(parse_protocol("invalid"), None);
}

#[test]
fn parse_protocol_ignores_surrounding_white_space() {
    assert_eq!(parse_protocol("  grpc\n"), Some(Protocol::Grpc));
    assert_eq!(parse_protocol("\thttp/json "), Some(Protocol::HttpJson));
    assert_eq!(parse_protocol("\u{3000}http/proto\u{a0}"), Some(Protocol::HttpBinary));
    assert_eq!(parse_protocol("   "), None);
    assert_eq!(parse_protocol(""), None);
}

#[test]
fn parse_protocol_ignores_ascii_case_only() {
    assert_eq!(parse_protocol("HTTP/JSON"), Some(Protocol::HttpJson));
    assert_eq!(parse_protocol("Http/ProtoBuf"), Some(Protocol::HttpBinary));
    assert_eq!(parse_protocol("gr pc"), None);
    assert_eq!(parse_protocol("grpcs"), None);
    assert_eq!(parse_protocol("http/protobu"), None);
    // U+212A KELVIN SIGN is not an ASCII letter and is not lowered to `k`.
    assert_eq!(parse_protocol("http/json\u{212a}"), None);
}

#[test]
fn signal_setting_takes_precedence() {
    assert_eq!(
        protocol_for_signal(Some("http/json"), Some("grpc")),
        Protocol::HttpJson
    );
    assert_eq!(
        protocol_for_signal(Some(" HTTP/PROTOBUF "), None),
        Protocol::HttpBinary
    );
}

#[test]
fn shared_setting_is_the_fallback() {
    assert_eq!(
        protocol_for_signal(None, Some("http/protobuf")),
        Protocol::HttpBinary
    );
    assert_eq!(
        protocol_for_signal(Some("bogus"), Some("http/json")),
        Protocol::HttpJson
    );
}

#[test]
fn grpc_is_the_default() {
    assert_eq!(protocol_for_signal(None, None), Protocol::Grpc);
    assert_eq!(protocol_for_signal(Some("x"), Some("y")), Protocol::Grpc);
    assert_eq!(protocol_for_signal(Some(""), None), Protocol::Grpc);
}

#[test]
fn exporter_transport_follows_protocol() {
    assert_eq!(exporter_transport(Protocol::Grpc), ExporterTransport::Tonic);
    assert_eq!(
        exporter_transport(Protocol::HttpBinary),
        ExporterTransport::Http(Protocol::HttpBinary)
    );
    assert_eq!(
        exporter_transport(Protocol::HttpJson),
        ExporterTransport::Http(Protocol::HttpJson)
    );
}

#[test]
fn exporter_error_context_names_transport() {
    assert_eq!(
        exporter_error_context("Failed to build span exporter", ExporterTransport::Tonic),
        "Failed to build span exporter (gRPC)"
    );
    assert_eq!(
        exporter_error_context(
            "Failed to build span exporter",
            ExporterTransport::Http(Protocol::HttpJson)
        ),
        "Failed to build span exporter (HTTP)"
    );
}
