use vstd::prelude::*;

use crate::level::Level;
use crate::protocol::opt_str_view;
use crate::request::{
    law_request_span_customization, law_request_span_fields, law_request_span_shape,
    make_request_span, optional_str, request_field_names, spec_request_span, RequestInfo,
    RequestView,
};
use crate::span::{
    field, field_lookup, fields_view, last_record, FieldValue, FieldView, SpanField, SpanRecord,
    SpanView,
};

verus! {

/// Creates the spans of the requests that an `axum` web server receives: the
/// shared HTTP server span, to which it adds the matched route, the peer
/// address, the span name and the span kind.
#[derive(Clone, Copy, Debug)]
pub struct AxumOtelSpanCreator {
    level: Level,
}

impl View for AxumOtelSpanCreator {
    type V = Level;

    /// The level of the spans created.
    closed spec fn view(&self) -> Level {
        self.level
    }
}

/// The name of the span of a request: the method and the matched route,
/// separated by a space, where there is a route; the method alone otherwise.
pub open spec fn spec_span_name(method: Seq<char>, route: Option<Seq<char>>) -> Seq<char> {
    match route {
        Some(r) => method + seq![' '] + r,
        None => method,
    }
}

/// What the adapter records on the shared span, in order: `otel.name`,
/// `otel.kind` (the server kind), then `http.route` where there is a matched
/// route and `client.address` where the peer is known.
pub open spec fn spec_adapter_records(
    method: Seq<char>,
    route: Option<Seq<char>>,
    peer_ip: Option<Seq<char>>,
) -> Seq<(Seq<char>, FieldView)> {
    let named = seq![
        ("otel.name"@, FieldView::Str(spec_span_name(method, route))),
        ("otel.kind"@, FieldView::Debug("Server"@)),
    ];
    let routed = match route {
        Some(r) => named.push(("http.route"@, FieldView::Str(r))),
        None => named,
    };
    match peer_ip {
        Some(ip) => routed.push(("client.address"@, FieldView::Display(ip))),
        None => routed,
    }
}

/// The span that the adapter creates at `level` for `request`.
pub open spec fn spec_make_span(
    level: Level,
    request: RequestView,
    route: Option<Seq<char>>,
    peer_ip: Option<Seq<char>>,
) -> SpanView {
    spec_request_span(level, request, spec_adapter_records(request.method, route, peer_ip))
}

/// The names that the adapter records are pairwise distinct.
proof fn lemma_adapter_names_distinct()
    ensures
        "otel.name"@ != "otel.kind"@,
        "otel.name"@ != "http.route"@,
        "otel.name"@ != "client.address"@,
        "otel.kind"@ != "http.route"@,
        "otel.kind"@ != "client.address"@,
        "http.route"@ != "client.address"@,
{
    reveal_strlit("otel.name");
    reveal_strlit("otel.kind");
    reveal_strlit("http.route");
    reveal_strlit("client.address");
    assert("otel.name"@[5] != "otel.kind"@[5]);
    assert("http.route"@.len() != "client.address"@.len());
    assert("otel.name"@.len() != "client.address"@.len());
    assert("otel.kind"@.len() != "client.address"@.len());
}

/// The span of a request names itself after the method and the matched
/// route, has the server kind, holds the matched route where there is one and
/// the peer's IP address where the peer is known (both empty otherwise), and
/// keeps every shared HTTP field as the request gives it.
pub proof fn law_make_span_fields(
    level: Level,
    request: RequestView,
    route: Option<Seq<char>>,
    peer_ip: Option<Seq<char>>,
    name: Seq<char>,
)
    ensures
        ({
            let s = spec_make_span(level, request, route, peer_ip);
            &&& s.level == level
            &&& s.name == "request"@
            &&& field_lookup(s.fields, "otel.name"@) == Some(
                FieldView::Str(spec_span_name(request.method, route)),
            )
            &&& field_lookup(s.fields, "otel.kind"@) == Some(FieldView::Debug("Server"@))
            &&& field_lookup(s.fields, "http.route"@) == Some(optional_str(route))
            &&& field_lookup(s.fields, "client.address"@) == Some(
                match peer_ip {
                    Some(ip) => FieldView::Display(ip),
                    None => FieldView::Empty,
                },
            )
            &&& (name != "otel.name"@ && name != "otel.kind"@ && name != "http.route"@ && name
                != "client.address"@) ==> field_lookup(s.fields, name) == field_lookup(
                spec_request_span(level, request, seq![]).fields,
                name,
            )
        }),
{
    let c = spec_adapter_records(request.method, route, peer_ip);
    lemma_adapter_names_distinct();
    reveal_with_fuel(last_record, 5);
    law_request_span_shape(level, request, c);
    law_request_span_fields(level, request);
    law_request_span_customization(level, request, c, "otel.name"@);
    law_request_span_customization(level, request, c, "otel.kind"@);
    law_request_span_customization(level, request, c, "http.route"@);
    law_request_span_customization(level, request, c, "client.address"@);
    law_request_span_customization(level, request, c, name);
    law_request_span_customization(level, request, seq![], name);
    assert(request_field_names()[0] == "client.address"@);
    assert(request_field_names()[2] == "http.route"@);
    assert(request_field_names()[6] == "otel.name"@);
    assert(request_field_names()[7] == "otel.kind"@);
}

/// The `Debug` text of `opentelemetry::trace::SpanKind::Server`, the kind
/// of the spans created: `Server`, the name of the variant, which is what the
/// derived `Debug` of a unit variant writes.
#[verifier::external_body]
fn server_kind_text() -> (s: String)
    ensures
        s@ == "Server"@,
{
    format!("{:?}", opentelemetry::trace::SpanKind::Server)
}

/// The name of the span of a request with `method` and the matched `route`.
pub fn span_name(method: &str, route: Option<&str>) -> (s: String)
    ensures
        s@ == spec_span_name(method@, opt_str_view(route)),
{
    match route {
        Some(r) => {
            let mut s = String::from_str(method);
            s.append(" ");
            s.append(r);
            proof {
                reveal_strlit(" ");
            }
            s
        },
        None => String::from_str(method),
    }
}

impl AxumOtelSpanCreator {
    /// Creates a new `AxumOtelSpanCreator`, whose spans are at `TRACE` level.
    pub fn new() -> (s: Self)
        ensures
            s@ == Level::TRACE,
    {
        AxumOtelSpanCreator { level: Level::TRACE }
    }

    /// Sets the level of the spans created.
    pub fn level(self, level: Level) -> (s: Self)
        ensures
            s@ == level,
    {
        let mut s = self;
        s.level = level;
        s
    }

    /// The span of `request`, whose route matched `route` where it matched
    /// one, and whose peer has the IP address written `peer_ip` where the
    /// peer is known.
    pub fn make_span(&self, request: &RequestInfo, route: Option<&str>, peer_ip: Option<&str>) -> (s:
        SpanRecord)
        ensures
            s@ == spec_make_span(self@, request@, opt_str_view(route), opt_str_view(peer_ip)),
    {
        let name = span_name(request.method.as_str(), route);
        let mut customize: Vec<SpanField> = Vec::new();
        customize.push(field("otel.name", FieldValue::Str(name)));
        customize.push(field("otel.kind", FieldValue::Debug(server_kind_text())));
        if let Some(r) = route {
            customize.push(field("http.route", FieldValue::Str(String::from_str(r))));
        }
        if let Some(ip) = peer_ip {
            customize.push(field("client.address", FieldValue::Display(String::from_str(ip))));
        }
        assert(fields_view(customize@) =~= spec_adapter_records(
            request@.method,
            opt_str_view(route),
            opt_str_view(peer_ip),
        ));
        make_request_span(self.level, request, &customize)
    }
}

impl Default for AxumOtelSpanCreator {
    /// The same as [`AxumOtelSpanCreator::new`].
    fn default() -> (s: Self)
        ensures
            s@ == Level::TRACE,
    {
        Self::new()
    }
}

} // verus!
