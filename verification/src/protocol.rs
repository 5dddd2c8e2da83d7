use vstd::prelude::*;

use crate::text::{
    all_in_white_space_table, ascii_case_variant, is_white_space, law_lowercase_equals_is_case_variant,
    law_trim_ignores_unicode_white_space, trim_end, trim_start, all_white_space, ascii_case_equivalent, lemma_trim_case, lemma_trim_white_padding,
    lowercase_equals, lowercase_range_equals, trim, trim_bounds,
};

verus! {

/// The transport protocol of an OTLP exporter.
#[derive(Clone, Copy, Debug, PartialEq, Eq, Structural)]
pub enum Protocol {
    /// gRPC.
    Grpc,
    /// HTTP with a binary protobuf payload.
    HttpBinary,
    /// HTTP with a JSON payload.
    HttpJson,
}

/// The protocol that an OTLP protocol setting names: the setting is read
/// without surrounding white space and without regard to ASCII case.
pub open spec fn spec_parse_protocol(value: Seq<char>) -> Option<Protocol> {
    let t = trim(value);
    if lowercase_equals(t, "grpc"@) {
        Some(Protocol::Grpc)
    } else if lowercase_equals(t, "http/protobuf"@) || lowercase_equals(t, "http/proto"@) {
        Some(Protocol::HttpBinary)
    } else if lowercase_equals(t, "http/json"@) {
        Some(Protocol::HttpJson)
    } else {
        None
    }
}

/// The protocol that a setting gives, where it is set and valid.
pub open spec fn spec_setting_protocol(value: Option<Seq<char>>) -> Option<Protocol> {
    match value {
        Some(v) => spec_parse_protocol(v),
        None => None,
    }
}

/// The protocol for a signal: its own setting where that is valid, else the
/// setting shared by all signals where that is valid, else gRPC.
pub open spec fn spec_protocol_for_signal(
    signal_value: Option<Seq<char>>,
    global_value: Option<Seq<char>>,
) -> Protocol {
    match spec_setting_protocol(signal_value) {
        Some(p) => p,
        None => match spec_setting_protocol(global_value) {
            Some(p) => p,
            None => Protocol::Grpc,
        },
    }
}

/// A signal's own setting decides its protocol wherever it names a valid
/// protocol, whatever the shared setting holds.
pub proof fn law_signal_setting_first(signal_value: Seq<char>, global_value: Option<Seq<char>>)
    requires
        spec_parse_protocol(signal_value) is Some,
    ensures
        spec_protocol_for_signal(Some(signal_value), global_value) == spec_parse_protocol(
            signal_value,
        ).unwrap(),
{
}

/// Where a signal's own setting is unset or invalid, the shared setting
/// decides, where it names a valid protocol.
pub proof fn law_shared_setting_second(signal_value: Option<Seq<char>>, global_value: Seq<char>)
    requires
        spec_setting_protocol(signal_value) is None,
        spec_parse_protocol(global_value) is Some,
    ensures
        spec_protocol_for_signal(signal_value, Some(global_value)) == spec_parse_protocol(
            global_value,
        ).unwrap(),
{
}

/// Where neither setting names a valid protocol, the protocol is gRPC.
pub proof fn law_grpc_by_default(signal_value: Option<Seq<char>>, global_value: Option<Seq<char>>)
    requires
        spec_setting_protocol(signal_value) is None,
        spec_setting_protocol(global_value) is None,
    ensures
        spec_protocol_for_signal(signal_value, global_value) == Protocol::Grpc,
{
}

/// A protocol setting is read without regard to the ASCII case of its letters.
pub proof fn law_parse_ignores_ascii_case(value: Seq<char>, other: Seq<char>)
    requires
        ascii_case_equivalent(value, other),
    ensures
        spec_parse_protocol(value) == spec_parse_protocol(other),
{
    lemma_trim_case(value, other, "grpc"@);
    lemma_trim_case(value, other, "http/protobuf"@);
    lemma_trim_case(value, other, "http/proto"@);
    lemma_trim_case(value, other, "http/json"@);
}

/// White space around a protocol setting does not change what it names.
pub proof fn law_parse_ignores_surrounding_white_space(
    before: Seq<char>,
    value: Seq<char>,
    after: Seq<char>,
)
    requires
        all_white_space(before),
        all_white_space(after),
    ensures
        spec_parse_protocol(before + value + after) == spec_parse_protocol(value),
{
    lemma_trim_white_padding(before, value, after);
}

/// Characters with the Unicode `White_Space` property (U+0009 to U+000D
/// among them, so a CR LF line ending too) before and after a protocol
/// setting do not change what it names.
pub proof fn law_parse_ignores_unicode_white_space(
    before: Seq<char>,
    value: Seq<char>,
    after: Seq<char>,
)
    requires
        all_in_white_space_table(before),
        all_in_white_space_table(after),
    ensures
        spec_parse_protocol(before + value + after) == spec_parse_protocol(value),
{
    law_trim_ignores_unicode_white_space(before, value, after);
}

/// A setting that is `grpc`, `http/protobuf`, `http/proto` or `http/json`
/// with any of its letters written in upper case names that protocol.
pub proof fn law_parse_names_in_any_ascii_case(value: Seq<char>)
    ensures
        ascii_case_variant(value, "grpc"@) ==> spec_parse_protocol(value) == Some(Protocol::Grpc),
        ascii_case_variant(value, "http/protobuf"@) ==> spec_parse_protocol(value) == Some(
            Protocol::HttpBinary,
        ),
        ascii_case_variant(value, "http/proto"@) ==> spec_parse_protocol(value) == Some(
            Protocol::HttpBinary,
        ),
        ascii_case_variant(value, "http/json"@) ==> spec_parse_protocol(value) == Some(
            Protocol::HttpJson,
        ),
{
    reveal_strlit("grpc");
    reveal_strlit("http/protobuf");
    reveal_strlit("http/proto");
    reveal_strlit("http/json");
    law_lowercase_equals_is_case_variant(value, "grpc"@);
    law_lowercase_equals_is_case_variant(value, "http/protobuf"@);
    law_lowercase_equals_is_case_variant(value, "http/proto"@);
    law_lowercase_equals_is_case_variant(value, "http/json"@);
    if ascii_case_variant(value, "grpc"@) || ascii_case_variant(value, "http/protobuf"@)
        || ascii_case_variant(value, "http/proto"@) || ascii_case_variant(value, "http/json"@) {
        assert(value.len() > 0);
        assert(!is_white_space(value[0]));
        assert(!is_white_space(value.last()));
        assert(trim_start(value) == value);
        assert(trim_end(value) == value);
    }
}

/// The view of an optional string.
pub open spec fn opt_str_view(s: Option<&str>) -> Option<Seq<char>> {
    match s {
        Some(v) => Some(v@),
        None => None,
    }
}

/// Parses an OTLP protocol value: `grpc`, `http/protobuf` or `http/proto`,
/// and `http/json`, ignoring ASCII case and surrounding white space.
/// Returns `None` for any other value.
pub fn parse_protocol(value: &str) -> (r: Option<Protocol>)
    ensures
        r == spec_parse_protocol(value@),
{
    let (start, end) = trim_bounds(value);
    if lowercase_range_equals(value, start, end, "grpc") {
        Some(Protocol::Grpc)
    } else if lowercase_range_equals(value, start, end, "http/protobuf")
        || lowercase_range_equals(value, start, end, "http/proto") {
        Some(Protocol::HttpBinary)
    } else if lowercase_range_equals(value, start, end, "http/json") {
        Some(Protocol::HttpJson)
    } else {
        None
    }
}

/// Resolves the OTLP protocol of a signal from the value of the signal's own
/// protocol setting and from the value of the setting shared by all signals
/// (`None` where a setting is not set): the first of the two that names a
/// valid protocol decides, and gRPC is the default.
pub fn protocol_for_signal(signal_value: Option<&str>, global_value: Option<&str>) -> (r: Protocol)
    ensures
        r == spec_protocol_for_signal(opt_str_view(signal_value), opt_str_view(global_value)),
{
    let from_signal = match signal_value {
        Some(v) => parse_protocol(v),
        None => None,
    };
    match from_signal {
        Some(p) => p,
        None => {
            let from_global = match global_value {
                Some(v) => parse_protocol(v),
                None => None,
            };
            match from_global {
                Some(p) => p,
                None => Protocol::Grpc,
            }
        },
    }
}

/// The transport that an exporter is built with for a protocol.
#[derive(Clone, Copy, Debug, PartialEq, Eq, Structural)]
pub enum ExporterTransport {
    /// The gRPC transport.
    Tonic,
    /// The HTTP transport, set to send with the protocol it holds.
    Http(Protocol),
}

/// The transport for `protocol`: gRPC goes through the tonic transport, every
/// other protocol through the HTTP transport set to that protocol.
pub fn exporter_transport(protocol: Protocol) -> (t: ExporterTransport)
    ensures
        t == (match protocol {
            Protocol::Grpc => ExporterTransport::Tonic,
            _ => ExporterTransport::Http(protocol),
        }),
{
    match protocol {
        Protocol::Grpc => ExporterTransport::Tonic,
        _ => ExporterTransport::Http(protocol),
    }
}

/// The context attached to an error in building an exporter: `message`,
/// followed by ` (gRPC)` or ` (HTTP)` after the transport.
pub fn exporter_error_context(message: &str, transport: ExporterTransport) -> (s: String)
    ensures
        s@ == message@ + (match transport {
            ExporterTransport::Tonic => " (gRPC)"@,
            ExporterTransport::Http(_) => " (HTTP)"@,
        }),
{
    let mut s = String::from_str(message);
    match transport {
        ExporterTransport::Tonic => s.append(" (gRPC)"),
        ExporterTransport::Http(_) => s.append(" (HTTP)"),
    }
    s
}

} // verus!
