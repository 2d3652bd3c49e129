//! Requests to a custom protocol and the answers to them, as the plain
//! values that pass between the web view and the application's handler.

use super::fields::{fields_view, FieldView};
use super::header::{header_map_entries, header_pairs_lossy, lossy_fields};
use vstd::prelude::*;
use vstd::string::StringSliceAdditionalSpecFns;

verus! {

/// The header name that bytes stand for, in lower case, where they are a
/// header name at all.
pub uninterp spec fn header_name_of(bytes: Seq<u8>) -> Option<Seq<char>>;

/// Whether bytes are an HTTP method.
pub uninterp spec fn is_method(bytes: Seq<u8>) -> bool;

/// Whether bytes are a URI.
pub uninterp spec fn is_uri(bytes: Seq<u8>) -> bool;

/// Whether a byte may stand in a header value: anything but a control
/// character, and the tab.
pub open spec fn byte_allowed(byte: u8) -> bool {
    (byte >= 32 && byte != 127) || byte == 9
}

/// Whether all bytes may stand in a header value.
pub open spec fn all_allowed(bytes: Seq<u8>) -> bool {
    forall|i: int| 0 <= i < bytes.len() ==> byte_allowed(#[trigger] bytes[i])
}

/// What an optional text says.
pub open spec fn text_of(text: Option<String>) -> Option<Seq<char>> {
    match text {
        Some(text) => Some(text@),
        None => None,
    }
}

/// Parses a header name with `http::HeaderName::from_bytes` and hands its
/// text out. The contract names the result: the name in the form the parser
/// gives it, or nothing where the parser refuses the bytes.
#[verifier::external_body]
fn parse_header_name(bytes: &[u8]) -> (r: Option<String>)
    ensures
        text_of(r) == header_name_of(bytes@),
{
    match http::HeaderName::from_bytes(bytes) {
        Ok(name) => Some(name.as_str().to_string()),
        Err(_) => None,
    }
}

/// Asks `http::HeaderValue::from_bytes` whether it takes the bytes. It takes
/// them exactly where each byte is 32 or more and not 127, or is a tab.
#[verifier::external_body]
fn header_value_allowed(bytes: &[u8]) -> (r: bool)
    ensures
        r == all_allowed(bytes@),
{
    http::HeaderValue::from_bytes(bytes).is_ok()
}

/// Asks `http::Method::from_bytes` whether it takes the bytes.
#[verifier::external_body]
fn method_parses(bytes: &[u8]) -> (r: bool)
    ensures
        r == is_method(bytes@),
{
    http::Method::from_bytes(bytes).is_ok()
}

/// Asks `http::Uri::try_from` whether it takes the bytes.
#[verifier::external_body]
fn uri_parses(bytes: &[u8]) -> (r: bool)
    ensures
        r == is_uri(bytes@),
{
    http::Uri::try_from(bytes).is_ok()
}

/// The field as a request keeps it: the name as the parser gives it with
/// the value unchanged, or nothing where the name is no header name or the
/// value holds a byte that no header value may hold.
pub open spec fn kept_field(field: FieldView) -> Option<FieldView> {
    match header_name_of(vstd::utf8::encode_utf8(field.0)) {
        Some(name) => if all_allowed(vstd::utf8::encode_utf8(field.1)) {
            Some((name, field.1))
        } else {
            None
        },
        None => None,
    }
}

/// The fields that a request keeps, in the order given.
pub open spec fn kept_fields(fields: Seq<FieldView>) -> Seq<FieldView>
    decreases fields.len(),
{
    if fields.len() == 0 {
        Seq::<FieldView>::empty()
    } else {
        match kept_field(fields.last()) {
            Some(field) => kept_fields(fields.drop_last()).push(field),
            None => kept_fields(fields.drop_last()),
        }
    }
}

/// The head of a request to a custom protocol.
#[derive(Debug)]
pub struct RequestHead {
    pub method: String,
    pub uri: String,
    pub headers: Vec<(String, String)>,
}

/// The head of the answer to such a request.
#[derive(Debug)]
pub struct ResponseHead {
    pub status: i32,
    pub headers: Vec<(String, String)>,
}

/// The header fields of a web request that an HTTP request can carry, in the
/// order given. A field whose name is no header name, or whose value holds a
/// control character, is left out.
pub fn accepted_headers(headers: &Vec<(String, String)>) -> (r: Vec<(String, String)>)
    ensures
        fields_view(r@) == kept_fields(fields_view(headers@)),
{
    let ghost given = fields_view(headers@);
    let mut kept: Vec<(String, String)> = Vec::new();
    let mut i: usize = 0;
    assert(given.take(0) =~= Seq::<FieldView>::empty());
    assert(fields_view(kept@) =~= kept_fields(given.take(0)));
    while i < headers.len()
        invariant
            i <= headers.len(),
            given == fields_view(headers@),
            fields_view(kept@) == kept_fields(given.take(i as int)),
        decreases headers.len() - i,
    {
        let ghost before = fields_view(kept@);
        let name = parse_header_name(headers[i].0.as_str().as_bytes());
        let value_ok = header_value_allowed(headers[i].1.as_str().as_bytes());
        proof {
            let next = given.take(i + 1);
            assert(next.drop_last() =~= given.take(i as int));
            assert(next.last() == given[i as int]);
        }
        match name {
            Some(name) => {
                if value_ok {
                    let value = headers[i].1.clone();
                    kept.push((name, value));
                    assert(fields_view(kept@) =~= before.push((name@, value@)));
                }
            },
            None => {},
        }
        i += 1;
    }
    assert(given.take(headers.len() as int) =~= given);
    kept
}

/// The head of the HTTP request that a web request becomes. Method and URI
/// are taken as they are; of the header fields those stay that an HTTP
/// request can carry. A web request whose method or URI does not parse has
/// no such head.
pub fn request_head(method: &str, uri: &str, headers: &Vec<(String, String)>) -> (r: RequestHead)
    requires
        is_method(method.spec_bytes()),
        is_uri(uri.spec_bytes()),
    ensures
        r.method@ == method@,
        r.uri@ == uri@,
        fields_view(r.headers@) == kept_fields(fields_view(headers@)),
{
    RequestHead {
        method: method.to_owned(),
        uri: uri.to_owned(),
        headers: accepted_headers(headers),
    }
}

/// The head of the HTTP request that a web request becomes, or nothing
/// where its method or its URI does not parse.
pub fn try_request_head(method: &str, uri: &str, headers: &Vec<(String, String)>) -> (r: Option<
    RequestHead,
>)
    ensures
        r is Some <==> is_method(method.spec_bytes()) && is_uri(uri.spec_bytes()),
        r matches Some(head) ==> head.method@ == method@ && head.uri@ == uri@ && fields_view(
            head.headers@,
        ) == kept_fields(fields_view(headers@)),
{
    if method_parses(method.as_bytes()) && uri_parses(uri.as_bytes()) {
        Some(request_head(method, uri, headers))
    } else {
        None
    }
}

/// The head of the answer that the web view is given: the status, and each
/// header of the answer in the map's order with its value as text. A value
/// that has no text becomes the empty text.
pub fn response_head(status: u16, headers: &http::HeaderMap<http::HeaderValue>) -> (r: ResponseHead)
    ensures
        r.status == status,
        fields_view(r.headers@) == lossy_fields(header_map_entries(*headers)),
{
    ResponseHead { status: status as i32, headers: header_pairs_lossy(headers) }
}

} // verus!
