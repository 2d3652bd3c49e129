//! HTTP header maps as the web view takes them: names with text values.

use super::fields::{fields_view, last_wins, FieldView, HeaderFields};
use vstd::prelude::*;

verus! {

/// `http::HeaderValue`, the bytes of one header value.
#[verifier::external_type_specification]
#[verifier::external_body]
pub struct ExHeaderValue(http::HeaderValue);

/// `http::HeaderMap`, a multimap from header names to values.
#[verifier::external_type_specification]
#[verifier::external_body]
#[verifier::reject_recursive_types(T)]
pub struct ExHeaderMap<T>(http::HeaderMap<T>);

/// What a header map holds: for each value, in the order in which the map
/// hands its entries out, the name in lower case and the bytes of the value.
pub uninterp spec fn header_map_entries(map: http::HeaderMap<http::HeaderValue>) -> Seq<
    (Seq<char>, Seq<u8>),
>;

/// Whether a byte is visible ASCII or a tab.
pub open spec fn byte_visible(byte: u8) -> bool {
    (32 <= byte && byte < 127) || byte == 9
}

/// Whether all bytes are visible ASCII or tabs.
pub open spec fn all_visible(bytes: Seq<u8>) -> bool {
    forall|i: int| 0 <= i < bytes.len() ==> byte_visible(#[trigger] bytes[i])
}

/// The characters that ASCII bytes stand for.
pub open spec fn ascii_text(bytes: Seq<u8>) -> Seq<char> {
    Seq::new(bytes.len(), |i: int| bytes[i] as char)
}

/// The text of a header value, where it has one.
pub open spec fn value_text(bytes: Seq<u8>) -> Option<Seq<char>> {
    if all_visible(bytes) {
        Some(ascii_text(bytes))
    } else {
        None
    }
}

/// The text of a header value, and the empty text where it has none.
pub open spec fn value_text_or_empty(bytes: Seq<u8>) -> Seq<char> {
    match value_text(bytes) {
        Some(text) => text,
        None => Seq::<char>::empty(),
    }
}

/// The entries of a header map with each value as text, empty where the
/// value has no text.
pub open spec fn lossy_fields(entries: Seq<(Seq<char>, Seq<u8>)>) -> Seq<FieldView> {
    Seq::new(entries.len(), |i: int| (entries[i].0, value_text_or_empty(entries[i].1)))
}

/// Whether every value among the entries has a text.
pub open spec fn all_values_visible(entries: Seq<(Seq<char>, Seq<u8>)>) -> bool {
    forall|i: int| 0 <= i < entries.len() ==> all_visible((#[trigger] entries[i]).1)
}

/// What a list of names with value bytes says.
pub open spec fn entries_view(entries: Seq<(String, Vec<u8>)>) -> Seq<(Seq<char>, Seq<u8>)> {
    Seq::new(entries.len(), |i: int| (entries[i].0@, entries[i].1@))
}

/// Hands out the entries of an `http::HeaderMap` through `HeaderMap::iter`,
/// each as the name's text (`HeaderName::as_str`) and the value's bytes
/// (`HeaderValue::as_bytes`). The contract says that these are the map's
/// entries in the map's order.
#[verifier::external_body]
fn header_entries(map: &http::HeaderMap<http::HeaderValue>) -> (r: Vec<(String, Vec<u8>)>)
    ensures
        entries_view(r@) == header_map_entries(*map),
{
    map.iter().map(|(name, value)| (name.as_str().to_string(), value.as_bytes().to_vec())).collect()
}

/// Reads bytes as a header value and asks `HeaderValue::to_str` for its
/// text. There is a text exactly where every byte is visible ASCII or a tab,
/// and the text then has one character for each byte.
#[verifier::external_body]
fn header_value_text(bytes: &[u8]) -> (r: Option<String>)
    ensures
        r is Some <==> all_visible(bytes@),
        r matches Some(text) ==> text@ == ascii_text(bytes@),
{
    match http::HeaderValue::from_bytes(bytes) {
        Ok(value) => match value.to_str() {
            Ok(text) => Some(text.to_string()),
            Err(_) => None,
        },
        Err(_) => None,
    }
}

/// Whether every value of the map has a text.
pub fn header_values_visible(map: &http::HeaderMap<http::HeaderValue>) -> (r: bool)
    ensures
        r == all_values_visible(header_map_entries(*map)),
{
    let entries = header_entries(map);
    let mut i: usize = 0;
    while i < entries.len()
        invariant
            i <= entries.len(),
            entries_view(entries@) == header_map_entries(*map),
            forall|j: int| 0 <= j < i ==> all_visible(entries[j].1@),
        decreases entries.len() - i,
    {
        let text = header_value_text(entries[i].1.as_slice());
        if text.is_none() {
            assert(entries_view(entries@)[i as int].1 == entries[i as int].1@);
            return false;
        }
        i += 1;
    }
    assert forall|j: int| 0 <= j < entries.len() implies all_visible(
        (#[trigger] entries_view(entries@)[j]).1,
    ) by {}
    true
}

/// The entries of the map with each value as text, in the map's order. A
/// value that has no text becomes the empty text.
pub fn header_pairs_lossy(map: &http::HeaderMap<http::HeaderValue>) -> (r: Vec<(String, String)>)
    ensures
        fields_view(r@) == lossy_fields(header_map_entries(*map)),
{
    let entries = header_entries(map);
    let mut pairs: Vec<(String, String)> = Vec::new();
    let mut i: usize = 0;
    while i < entries.len()
        invariant
            i <= entries.len(),
            pairs.len() == i,
            forall|j: int|
                0 <= j < i ==> (#[trigger] pairs[j]).0@ == entries[j].0@ && pairs[j].1@
                    == value_text_or_empty(entries[j].1@),
        decreases entries.len() - i,
    {
        let name = entries[i].0.clone();
        let value = match header_value_text(entries[i].1.as_slice()) {
            Some(text) => text,
            None => String::new(),
        };
        pairs.push((name, value));
        i += 1;
    }
    assert(fields_view(pairs@) =~= lossy_fields(entries_view(entries@)));
    pairs
}

/// The fields of a header map by name, for a host that takes one text value
/// for each name: a value that has no text becomes the empty text, and of
/// several values for one name the last one stays.
pub fn header_fields_lossy(map: &http::HeaderMap<http::HeaderValue>) -> (r: HeaderFields)
    ensures
        r@ == last_wins(lossy_fields(header_map_entries(*map))),
{
    HeaderFields::from_pairs(header_pairs_lossy(map))
}

} // verus!
