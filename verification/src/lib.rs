//! Span and protocol decisions for OpenTelemetry-instrumented HTTP services.
//!
//! The library computes, as plain values, what an instrumented HTTP server
//! records on its request spans, which OTLP protocol an exporter uses, and
//! the events and spans emitted at a level chosen at run time.
pub mod level;
pub mod make_span;
pub mod protocol;
pub mod request;
pub mod span;
pub mod text;

pub use level::Level;
pub use protocol::{
    exporter_error_context, exporter_transport, parse_protocol, protocol_for_signal,
    ExporterTransport, Protocol,
};
pub use span::{dyn_event, dyn_span, field, EventRecord, FieldValue, SpanField, SpanRecord};
pub use request::{find_header, make_request_span, value_text, Header, HttpVersion, RequestInfo};
pub use make_span::AxumOtelSpanCreator;
