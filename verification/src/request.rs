use vstd::prelude::*;

use crate::level::Level;
use crate::protocol::opt_str_view;
use crate::span::{
    dyn_span, field, field_lookup, field_names, fields_view, last_record,
    law_record_all_keeps_names, law_record_all_lookup, lemma_declares_by_names,
    lemma_lookup_distinct, names_distinct, record_all, FieldValue, FieldView, SpanField,
    SpanRecord, SpanView,
};
use crate::text::{
    ascii_case_variant, has_no_ascii_upper, law_lowercase_equals_is_case_variant, lowercase_equals,
    lowercase_range_equals,
};

verus! {

/// The HTTP version of a request.
#[derive(Clone, Copy, Debug, PartialEq, Eq, Structural)]
pub enum HttpVersion {
    Http09,
    Http10,
    Http11,
    Http2,
    Http3,
    /// A version that none of the others names.
    Other,
}

/// A request header: its name and the bytes of its value.
#[derive(Debug, PartialEq, Eq)]
pub struct Header {
    pub name: String,
    pub value: Vec<u8>,
}

impl View for Header {
    type V = (Seq<char>, Seq<u8>);

    open spec fn view(&self) -> (Seq<char>, Seq<u8>) {
        (self.name@, self.value@)
    }
}

/// The view of an optional string.
pub open spec fn opt_string_view(s: Option<String>) -> Option<Seq<char>> {
    match s {
        Some(v) => Some(v@),
        None => None,
    }
}

/// Whether a byte of a header value is visible ASCII: a printable ASCII
/// character or a horizontal tab.
pub open spec fn is_visible_ascii(b: u8) -> bool {
    (32 <= b < 127) || b == 9
}

/// The text of a header value, as `http::HeaderValue::to_str` gives it: the
/// characters of its bytes where all of them are visible ASCII, and nothing
/// otherwise.
pub open spec fn header_text(bytes: Seq<u8>) -> Option<Seq<char>> {
    if forall|i: int| 0 <= i < bytes.len() ==> is_visible_ascii(#[trigger] bytes[i]) {
        Some(bytes.map_values(|b: u8| b as char))
    } else {
        None
    }
}

/// What a span reads of an HTTP request: its method, the path, query and
/// scheme of its URI, its version and its headers in order.
#[derive(Debug, PartialEq, Eq)]
pub struct RequestInfo {
    pub method: String,
    pub path: String,
    pub query: Option<String>,
    pub scheme: Option<String>,
    pub version: HttpVersion,
    pub headers: Vec<Header>,
}

/// The mathematical value of a [`RequestInfo`].
pub struct RequestView {
    pub method: Seq<char>,
    pub path: Seq<char>,
    pub query: Option<Seq<char>>,
    pub scheme: Option<Seq<char>>,
    pub version: HttpVersion,
    pub headers: Seq<(Seq<char>, Seq<u8>)>,
}

impl View for RequestInfo {
    type V = RequestView;

    open spec fn view(&self) -> RequestView {
        RequestView {
            method: self.method@,
            path: self.path@,
            query: opt_string_view(self.query),
            scheme: opt_string_view(self.scheme),
            version: self.version,
            headers: self.headers@.map_values(|h: Header| h@),
        }
    }
}

/// Whether `i` is the first position of `headers` whose name is `name`,
/// header names being compared without regard to ASCII case (`name` is
/// written in lower case).
pub open spec fn is_first_header(
    headers: Seq<(Seq<char>, Seq<u8>)>,
    name: Seq<char>,
    i: int,
) -> bool {
    &&& 0 <= i < headers.len()
    &&& lowercase_equals(headers[i].0, name)
    &&& forall|j: int| 0 <= j < i ==> !lowercase_equals(#[trigger] headers[j].0, name)
}

/// The text of the first header named `name`; `None` where there is no such
/// header or its value is not visible ASCII text.
pub open spec fn header_value(headers: Seq<(Seq<char>, Seq<u8>)>, name: Seq<char>) -> Option<
    Seq<char>,
> {
    if exists|i: int| is_first_header(headers, name, i) {
        header_text(headers[choose|i: int| is_first_header(headers, name, i)].1)
    } else {
        None
    }
}

/// The text of `network.protocol.version` for an HTTP version.
pub open spec fn version_text(v: HttpVersion) -> Option<Seq<char>> {
    match v {
        HttpVersion::Http09 => Some("0.9"@),
        HttpVersion::Http10 => Some("1.0"@),
        HttpVersion::Http11 => Some("1.1"@),
        HttpVersion::Http2 => Some("2"@),
        HttpVersion::Http3 => Some("3"@),
        HttpVersion::Other => None,
    }
}

/// A field value that holds a string where there is one, and is empty
/// otherwise.
pub open spec fn optional_str(s: Option<Seq<char>>) -> FieldView {
    match s {
        Some(v) => FieldView::Str(v),
        None => FieldView::Empty,
    }
}

/// The fields of the span of `request`, in their order of declaration, with
/// what the request gives each of them.
pub open spec fn spec_request_fields(request: RequestView) -> Seq<(Seq<char>, FieldView)> {
    seq![
        ("client.address"@, FieldView::Empty),
        ("http.request.method"@, FieldView::Display(request.method)),
        ("http.route"@, FieldView::Empty),
        ("http.response.status_code"@, FieldView::Empty),
        ("network.protocol.name"@, FieldView::Str("http"@)),
        ("network.protocol.version"@, optional_str(version_text(request.version))),
        ("otel.name"@, FieldView::Empty),
        ("otel.kind"@, FieldView::Empty),
        ("otel.status_code"@, FieldView::Empty),
        ("otel.status_description"@, FieldView::Empty),
        ("request_id"@, optional_str(header_value(request.headers, "x-request-id"@))),
        ("server.address"@, optional_str(header_value(request.headers, "host"@))),
        ("trace_id"@, FieldView::Empty),
        ("url.path"@, FieldView::Str(request.path)),
        ("url.query"@, optional_str(request.query)),
        ("url.scheme"@, optional_str(request.scheme)),
        ("user_agent.original"@, optional_str(header_value(request.headers, "user-agent"@))),
    ]
}

/// The span of `request` at `level`, after the `customization` records are
/// recorded on it, in order.
pub open spec fn spec_request_span(
    level: Level,
    request: RequestView,
    customization: Seq<(Seq<char>, FieldView)>,
) -> SpanView {
    SpanView {
        level,
        name: "request"@,
        fields: record_all(spec_request_fields(request), customization),
    }
}

/// The names of the fields that the span of every request declares, in order.
pub open spec fn request_field_names() -> Seq<Seq<char>> {
    seq![
        "client.address"@,
        "http.request.method"@,
        "http.route"@,
        "http.response.status_code"@,
        "network.protocol.name"@,
        "network.protocol.version"@,
        "otel.name"@,
        "otel.kind"@,
        "otel.status_code"@,
        "otel.status_description"@,
        "request_id"@,
        "server.address"@,
        "trace_id"@,
        "url.path"@,
        "url.query"@,
        "url.scheme"@,
        "user_agent.original"@,
    ]
}

/// The field names of a request span are pairwise distinct.
proof fn lemma_request_field_names_distinct(request: RequestView)
    ensures
        names_distinct(spec_request_fields(request)),
        field_names(spec_request_fields(request)) == request_field_names(),
{
    reveal_strlit("client.address");
    reveal_strlit("http.request.method");
    reveal_strlit("http.route");
    reveal_strlit("http.response.status_code");
    reveal_strlit("network.protocol.name");
    reveal_strlit("network.protocol.version");
    reveal_strlit("otel.name");
    reveal_strlit("otel.kind");
    reveal_strlit("otel.status_code");
    reveal_strlit("otel.status_description");
    reveal_strlit("request_id");
    reveal_strlit("server.address");
    reveal_strlit("trace_id");
    reveal_strlit("url.path");
    reveal_strlit("url.query");
    reveal_strlit("url.scheme");
    reveal_strlit("user_agent.original");
    let fs = spec_request_fields(request);
    assert(field_names(fs) =~= request_field_names());
    assert forall|i: int, j: int|
        0 <= i < fs.len() && 0 <= j < fs.len() && i != j implies #[trigger] fs[i].0
        != #[trigger] fs[j].0 by {
        let a = fs[i].0;
        let b = fs[j].0;
        if a.len() == b.len() {
            assert(a[0] != b[0] || a[5] != b[5]);
        }
    }
}

/// Every request span is named `request`, is at the level asked for, and
/// declares the same fields in the same order, whatever the request and the
/// customization.
pub proof fn law_request_span_shape(
    level: Level,
    request: RequestView,
    customization: Seq<(Seq<char>, FieldView)>,
)
    ensures
        spec_request_span(level, request, customization).level == level,
        spec_request_span(level, request, customization).name == "request"@,
        field_names(spec_request_span(level, request, customization).fields)
            == request_field_names(),
{
    lemma_request_field_names_distinct(request);
    law_record_all_keeps_names(spec_request_fields(request), customization);
}

/// Before any customization, a request span holds the method, the protocol
/// name `http`, the protocol version, the path, and the query, scheme,
/// `Host`, `User-Agent` and `X-Request-Id` of the request where it has them;
/// every other field, and each of those that the request lacks, is empty.
pub proof fn law_request_span_fields(level: Level, request: RequestView)
    ensures
        ({
            let f = spec_request_span(level, request, seq![]).fields;
            &&& field_lookup(f, "http.request.method"@) == Some(FieldView::Display(request.method))
            &&& field_lookup(f, "network.protocol.name"@) == Some(FieldView::Str("http"@))
            &&& field_lookup(f, "network.protocol.version"@) == Some(
                optional_str(version_text(request.version)),
            )
            &&& field_lookup(f, "url.path"@) == Some(FieldView::Str(request.path))
            &&& field_lookup(f, "url.query"@) == Some(optional_str(request.query))
            &&& field_lookup(f, "url.scheme"@) == Some(optional_str(request.scheme))
            &&& field_lookup(f, "server.address"@) == Some(
                optional_str(header_value(request.headers, "host"@)),
            )
            &&& field_lookup(f, "user_agent.original"@) == Some(
                optional_str(header_value(request.headers, "user-agent"@)),
            )
            &&& field_lookup(f, "request_id"@) == Some(
                optional_str(header_value(request.headers, "x-request-id"@)),
            )
            &&& field_lookup(f, "client.address"@) == Some(FieldView::Empty)
            &&& field_lookup(f, "http.route"@) == Some(FieldView::Empty)
            &&& field_lookup(f, "http.response.status_code"@) == Some(FieldView::Empty)
            &&& field_lookup(f, "otel.name"@) == Some(FieldView::Empty)
            &&& field_lookup(f, "otel.kind"@) == Some(FieldView::Empty)
            &&& field_lookup(f, "otel.status_code"@) == Some(FieldView::Empty)
            &&& field_lookup(f, "otel.status_description"@) == Some(FieldView::Empty)
            &&& field_lookup(f, "trace_id"@) == Some(FieldView::Empty)
        }),
{
    let fs = spec_request_fields(request);
    assert(spec_request_span(level, request, seq![]).fields == fs);
    lemma_request_field_names_distinct(request);
    assert forall|k: int| 0 <= k < fs.len() implies field_lookup(fs, #[trigger] fs[k].0) == Some(
        fs[k].1,
    ) by {
        lemma_lookup_distinct(fs, k);
    }
    assert(fs[0].0 == "client.address"@);
    assert(fs[1].0 == "http.request.method"@);
    assert(fs[2].0 == "http.route"@);
    assert(fs[3].0 == "http.response.status_code"@);
    assert(fs[4].0 == "network.protocol.name"@);
    assert(fs[5].0 == "network.protocol.version"@);
    assert(fs[6].0 == "otel.name"@);
    assert(fs[7].0 == "otel.kind"@);
    assert(fs[8].0 == "otel.status_code"@);
    assert(fs[9].0 == "otel.status_description"@);
    assert(fs[10].0 == "request_id"@);
    assert(fs[11].0 == "server.address"@);
    assert(fs[12].0 == "trace_id"@);
    assert(fs[13].0 == "url.path"@);
    assert(fs[14].0 == "url.query"@);
    assert(fs[15].0 == "url.scheme"@);
    assert(fs[16].0 == "user_agent.original"@);
}

/// The customization is recorded after the shared fields: a field that the
/// span declares reads as the last value the customization recorded for it,
/// or as the shared value where the customization recorded none; a name that
/// the span does not declare reads as nothing, whatever was recorded for it.
pub proof fn law_request_span_customization(
    level: Level,
    request: RequestView,
    customization: Seq<(Seq<char>, FieldView)>,
    name: Seq<char>,
)
    ensures
        field_lookup(spec_request_span(level, request, customization).fields, name) == (if request_field_names().contains(name) {
            match last_record(customization, name) {
                Some(v) => Some(v),
                None => field_lookup(spec_request_fields(request), name),
            }
        } else {
            None
        }),
{
    lemma_request_field_names_distinct(request);
    lemma_declares_by_names(spec_request_fields(request), name);
    law_record_all_lookup(spec_request_fields(request), customization, name);
}

/// A header whose name is the looked-up name with any of its letters written
/// in upper case is found, and its visible-ASCII value is read as text;
/// a header with any other name is passed over.
pub proof fn law_header_name_ignores_ascii_case(
    name: Seq<char>,
    key: Seq<char>,
    value: Seq<u8>,
    rest: Seq<(Seq<char>, Seq<u8>)>,
)
    requires
        has_no_ascii_upper(key),
    ensures
        ascii_case_variant(name, key) && (forall|i: int|
            0 <= i < value.len() ==> (32 <= #[trigger] value[i] < 127 || value[i] == 9))
            ==> header_value(seq![(name, value)] + rest, key) == Some(
            value.map_values(|b: u8| b as char),
        ),
        !ascii_case_variant(name, key) ==> header_value(seq![(name, value)] + rest, key)
            == header_value(rest, key),
{
    law_lowercase_equals_is_case_variant(name, key);
    let hs = seq![(name, value)] + rest;
    assert(hs[0] == (name, value));
    if ascii_case_variant(name, key) {
        assert(is_first_header(hs, key, 0));
        let c = choose|i: int| is_first_header(hs, key, i);
        if c > 0 {
            assert(!lowercase_equals(hs[0].0, key));
        }
        assert(forall|i: int| 0 <= i < value.len() ==> is_visible_ascii(#[trigger] value[i])
            == (32 <= value[i] < 127 || value[i] == 9));
    } else {
        assert forall|k: int| #[trigger] is_first_header(hs, key, k) implies k >= 1
            && is_first_header(rest, key, k - 1) by {
            assert(k != 0);
            assert forall|j: int| 0 <= j < k - 1 implies !lowercase_equals(#[trigger] rest[j].0, key) by {
                assert(hs[j + 1] == rest[j]);
            }
            assert(hs[k] == rest[k - 1]);
        }
        assert forall|k: int| #[trigger] is_first_header(rest, key, k) implies is_first_header(
            hs,
            key,
            k + 1,
        ) by {
            assert forall|j: int| 0 <= j < k + 1 implies !lowercase_equals(#[trigger] hs[j].0, key) by {
                if j > 0 {
                    assert(hs[j] == rest[j - 1]);
                }
            }
            assert(hs[k + 1] == rest[k]);
        }
        if exists|i: int| is_first_header(rest, key, i) {
            let r = choose|i: int| is_first_header(rest, key, i);
            assert(is_first_header(hs, key, r + 1));
            let c = choose|i: int| is_first_header(hs, key, i);
            assert(is_first_header(rest, key, c - 1));
            if c - 1 < r {
                assert(!lowercase_equals(rest[c - 1].0, key));
            } else if c - 1 > r {
                assert(!lowercase_equals(rest[r].0, key));
            }
            assert(hs[c] == rest[c - 1]);
        }
    }
}

/// `std::str::from_utf8`, on bytes that are all ASCII, with the text turned
/// into a `String`: every ASCII byte is the UTF-8 encoding of the character
/// with its code, so the call succeeds and gives those characters.
#[verifier::external_body]
fn ascii_to_string(bytes: &[u8]) -> (r: Option<String>)
    requires
        forall|i: int| 0 <= i < bytes@.len() ==> #[trigger] bytes@[i] < 128,
    ensures
        r is Some,
        r matches Some(s) ==> s@ == bytes@.map_values(|b: u8| b as char),
{
    match std::str::from_utf8(bytes) {
        Ok(s) => Some(s.to_string()),
        Err(_) => None,
    }
}

/// The text of a header value: its characters where all its bytes are
/// visible ASCII, `None` otherwise.
pub fn value_text(bytes: &Vec<u8>) -> (r: Option<String>)
    ensures
        opt_string_view(r) == header_text(bytes@),
{
    let mut i: usize = 0;
    while i < bytes.len()
        invariant
            i <= bytes.len(),
            forall|j: int| 0 <= j < i ==> is_visible_ascii(#[trigger] bytes@[j]),
        decreases bytes.len() - i,
    {
        let b = bytes[i];
        if !((32 <= b && b < 127) || b == 9) {
            assert(!is_visible_ascii(bytes@[i as int]));
            return None;
        }
        i = i + 1;
    }
    let r = ascii_to_string(bytes.as_slice());
    match r {
        Some(s) => Some(s),
        None => None,
    }
}

/// The text of the first header of `headers` named `name` (in lower case,
/// compared without regard to ASCII case); `None` where there is no such
/// header or its value is not visible ASCII text.
pub fn find_header(headers: &Vec<Header>, name: &str) -> (r: Option<String>)
    ensures
        opt_string_view(r) == header_value(headers@.map_values(|h: Header| h@), name@),
{
    let ghost hs = headers@.map_values(|h: Header| h@);
    let mut i: usize = 0;
    while i < headers.len()
        invariant
            i <= headers.len(),
            hs == headers@.map_values(|h: Header| h@),
            forall|j: int| 0 <= j < i ==> !lowercase_equals(#[trigger] hs[j].0, name@),
        decreases headers.len() - i,
    {
        let h = &headers[i];
        let n = h.name.as_str();
        let len = n.unicode_len();
        assert(n@.subrange(0, len as int) =~= n@);
        if lowercase_range_equals(n, 0, len, name) {
            proof {
                assert(is_first_header(hs, name@, i as int));
                let c = choose|k: int| is_first_header(hs, name@, k);
                if c < i {
                    assert(!lowercase_equals(hs[c].0, name@));
                } else if c > i {
                    assert(lowercase_equals(hs[i as int].0, name@));
                }
            }
            return value_text(&h.value);
        }
        assert(!lowercase_equals(hs[i as int].0, name@));
        i = i + 1;
    }
    None
}

/// The text of `network.protocol.version` for an HTTP version.
pub fn protocol_version_text(v: HttpVersion) -> (r: Option<&'static str>)
    ensures
        opt_str_view(r) == version_text(v),
{
    match v {
        HttpVersion::Http09 => Some("0.9"),
        HttpVersion::Http10 => Some("1.0"),
        HttpVersion::Http11 => Some("1.1"),
        HttpVersion::Http2 => Some("2"),
        HttpVersion::Http3 => Some("3"),
        HttpVersion::Other => None,
    }
}

/// A field value holding `s` where there is a string, empty otherwise.
fn optional_str_value(s: Option<String>) -> (v: FieldValue)
    ensures
        v@ == optional_str(opt_string_view(s)),
{
    match s {
        Some(t) => FieldValue::Str(t),
        None => FieldValue::Empty,
    }
}

/// A copy of an optional string.
fn copy_opt_string(s: &Option<String>) -> (r: Option<String>)
    ensures
        opt_string_view(r) == opt_string_view(*s),
{
    match s {
        Some(t) => Some(t.clone()),
        None => None,
    }
}

/// Creates the span of an HTTP server request at `level`: the span named
/// `request` declares the HTTP server span fields of OpenTelemetry, records
/// the method, protocol name and version, path, query, scheme, `Host`,
/// `User-Agent` and `X-Request-Id` of the request where it has them, and then
/// records `customize`, in order, as the caller's customization of the span.
pub fn make_request_span(level: Level, request: &RequestInfo, customize: &Vec<SpanField>) -> (s:
    SpanRecord)
    ensures
        s@ == spec_request_span(level, request@, fields_view(customize@)),
{
    let mut fields: Vec<SpanField> = Vec::new();
    fields.push(field("client.address", FieldValue::Empty));
    fields.push(field("http.request.method", FieldValue::Display(request.method.clone())));
    fields.push(field("http.route", FieldValue::Empty));
    fields.push(field("http.response.status_code", FieldValue::Empty));
    fields.push(field("network.protocol.name", FieldValue::Str(String::from_str("http"))));
    let version = match protocol_version_text(request.version) {
        Some(t) => FieldValue::Str(String::from_str(t)),
        None => FieldValue::Empty,
    };
    fields.push(field("network.protocol.version", version));
    fields.push(field("otel.name", FieldValue::Empty));
    fields.push(field("otel.kind", FieldValue::Empty));
    fields.push(field("otel.status_code", FieldValue::Empty));
    fields.push(field("otel.status_description", FieldValue::Empty));
    fields.push(field("request_id", optional_str_value(find_header(&request.headers, "x-request-id"))));
    fields.push(field("server.address", optional_str_value(find_header(&request.headers, "host"))));
    fields.push(field("trace_id", FieldValue::Empty));
    fields.push(field("url.path", FieldValue::Str(request.path.clone())));
    fields.push(field("url.query", optional_str_value(copy_opt_string(&request.query))));
    fields.push(field("url.scheme", optional_str_value(copy_opt_string(&request.scheme))));
    fields.push(field("user_agent.original", optional_str_value(find_header(&request.headers, "user-agent"))));
    assert(fields_view(fields@) =~= spec_request_fields(request@));
    let mut span = dyn_span(level, "request", fields);
    let ghost base = span@.fields;
    let mut k: usize = 0;
    while k < customize.len()
        invariant
            k <= customize.len(),
            base == spec_request_fields(request@),
            span@.level == level,
            span@.name == "request"@,
            span@.fields == record_all(base, fields_view(customize@).take(k as int)),
        decreases customize.len() - k,
    {
        let r = &customize[k];
        span.record(r.name.as_str(), r.value.duplicate());
        proof {
            let cs = fields_view(customize@);
            assert(cs.take(k + 1).drop_last() =~= cs.take(k as int));
            assert(cs.take(k + 1).last() == cs[k as int]);
        }
        k = k + 1;
    }
    assert(fields_view(customize@).take(customize.len() as int) =~= fields_view(customize@));
    span
}

} // verus!
