//! The request headers as the state machine of a request reads them.
//!
//! Header storage and header values belong to the `http` crate. This module
//! names what they hold and states, without proof, what the two `http` calls
//! made by the machine return. Everything built on top of them is verified.

use http::header::ToStrError;
use http::{HeaderMap, HeaderValue};
use vstd::prelude::*;

verus! {

/// `http::HeaderMap`, the headers of a request. Nothing is claimed of its
/// inside; [`header_entries`] names what it holds.
#[verifier::external_type_specification]
#[verifier::external_body]
#[verifier::reject_recursive_types(T)]
pub struct ExHeaderMap<T>(HeaderMap<T>);

/// `http::HeaderValue`, the value of one header. Nothing is claimed of its
/// inside; [`header_value_bytes`] names the bytes it holds.
#[verifier::external_type_specification]
#[verifier::external_body]
pub struct ExHeaderValue(HeaderValue);

/// `http::header::ToStrError`, the error of `HeaderValue::to_str`. It carries
/// no information.
#[verifier::external_type_specification]
#[verifier::external_body]
pub struct ExToStrError(ToStrError);

/// What a header map holds: each header name present in the map, in the
/// lower-case form in which `http` stores names, mapped to the bytes of its
/// values in the order in which they were added.
pub uninterp spec fn header_entries(headers: HeaderMap<HeaderValue>) -> Map<Seq<char>, Seq<Seq<u8>>>;

/// The bytes that a header value holds.
pub uninterp spec fn header_value_bytes(value: HeaderValue) -> Seq<u8>;

/// A header name made of lower-case ASCII letters, digits and hyphens, at most
/// 64 characters long. Such a name is stored by `http` exactly as written.
pub open spec fn is_plain_header_name(name: Seq<char>) -> bool {
    &&& 1 <= name.len() <= 64
    &&& forall|i: int|
        0 <= i < name.len() ==> {
            let c = #[trigger] name[i];
            ('a' <= c && c <= 'z') || ('0' <= c && c <= '9') || c == '-'
        }
}

/// The bytes that `http` accepts as text: printable ASCII, space and tab.
pub open spec fn is_visible_ascii(b: u8) -> bool {
    (32 <= b && b < 127) || b == 9
}

/// Whether every byte of a header value is text.
pub open spec fn is_text(bytes: Seq<u8>) -> bool {
    forall|i: int| 0 <= i < bytes.len() ==> is_visible_ascii(#[trigger] bytes[i])
}

/// The characters that a sequence of ASCII bytes spells.
pub open spec fn text_of(bytes: Seq<u8>) -> Seq<char> {
    Seq::new(bytes.len(), |i: int| bytes[i] as char)
}

/// The first value stored under `name`, if the map holds that name.
pub open spec fn first_value(entries: Map<Seq<char>, Seq<Seq<u8>>>, name: Seq<char>) -> Option<
    Seq<u8>,
> {
    if entries.dom().contains(name) {
        Some(entries[name][0])
    } else {
        None
    }
}

/// `HeaderMap::get` with a string key: the first value stored under the name,
/// or `None` when the map has no entry for it. The name is restricted to plain
/// lower-case names, which `http` looks up without rewriting them.
#[verifier::external_body]
pub(crate) fn header_get<'a>(headers: &'a HeaderMap<HeaderValue>, name: &str) -> (found: Option<
    &'a HeaderValue,
>)
    requires
        is_plain_header_name(name@),
    ensures
        found is Some <==> header_entries(*headers).dom().contains(name@),
        found matches Some(value) ==> Some(header_value_bytes(*value)) == first_value(
            header_entries(*headers),
            name@,
        ),
{
    headers.get(name)
}

/// `HeaderValue::to_str`: succeeds exactly when every byte of the value is
/// printable ASCII, space or tab, and then yields those bytes as characters.
#[verifier::external_body]
pub(crate) fn header_value_to_str<'a>(value: &'a HeaderValue) -> (text: Result<&'a str, ToStrError>)
    ensures
        text is Ok <==> is_text(header_value_bytes(*value)),
        text matches Ok(s) ==> s@ == text_of(header_value_bytes(*value)),
{
    value.to_str()
}

} // verus!
