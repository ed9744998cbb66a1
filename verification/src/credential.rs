//! The credential of a request: the token of its `Authorization` header.
//!
//! A header value counts as a credential when it is text that starts with the
//! scheme `Bearer` and one space. What follows the space is the token, taken
//! as it is; an empty token is still a token, and it is for the verifier to
//! turn it down.

use crate::headers::{
    first_value, header_entries, header_get, header_value_to_str, is_text, text_of,
};
use http::{HeaderMap, HeaderValue};
use vstd::prelude::*;
use vstd::string::StringExecFns;

verus! {

/// What the `Authorization` header of a request turned out to be.
#[derive(Clone, Debug, PartialEq, Eq)]
pub enum Authorization {
    /// The request has no such header.
    Missing,
    /// The header is there but is not `Bearer <token>`.
    Malformed,
    /// The header is `Bearer <token>`; the token may be empty.
    Bearer { token: String },
}

pub enum AuthorizationView {
    Missing,
    Malformed,
    Bearer { token: Seq<char> },
}

impl View for Authorization {
    type V = AuthorizationView;

    open spec fn view(&self) -> AuthorizationView {
        match self {
            Authorization::Missing => AuthorizationView::Missing,
            Authorization::Malformed => AuthorizationView::Malformed,
            Authorization::Bearer { token } => AuthorizationView::Bearer { token: token@ },
        }
    }
}

/// The name under which the credential travels, as `http` stores it.
pub open spec fn authorization_name() -> Seq<char> {
    seq!['a', 'u', 't', 'h', 'o', 'r', 'i', 'z', 'a', 't', 'i', 'o', 'n']
}

/// The scheme prefix of a bearer credential, trailing space included.
pub open spec fn bearer_scheme() -> Seq<char> {
    seq!['B', 'e', 'a', 'r', 'e', 'r', ' ']
}

/// The token of a header text of the form `Bearer <token>`.
pub open spec fn bearer_credential(text: Seq<char>) -> Option<Seq<char>> {
    if bearer_scheme().is_prefix_of(text) {
        Some(text.skip(7))
    } else {
        None
    }
}

/// What a header value, or its absence, means to the machine.
pub open spec fn authorization_of(value: Option<Seq<u8>>) -> AuthorizationView {
    match value {
        None => AuthorizationView::Missing,
        Some(bytes) => if is_text(bytes) {
            match bearer_credential(text_of(bytes)) {
                Some(token) => AuthorizationView::Bearer { token },
                None => AuthorizationView::Malformed,
            }
        } else {
            AuthorizationView::Malformed
        },
    }
}

/// Takes the token out of a header text of the form `Bearer <token>`.
pub fn bearer_token(text: &str) -> (token: Option<String>)
    ensures
        token is Some <==> bearer_credential(text@) is Some,
        token matches Some(t) ==> Some(t@) == bearer_credential(text@),
{
    let scheme = "Bearer ";
    proof {
        reveal_strlit("Bearer ");
    }
    assert(scheme@ =~= bearer_scheme());
    let n = text.unicode_len();
    if n < 7 {
        return None;
    }
    let mut i: usize = 0;
    while i < 7
        invariant
            i <= 7,
            n == text@.len(),
            n >= 7,
            scheme@ == bearer_scheme(),
            forall|j: int| 0 <= j < i ==> text@[j] == bearer_scheme()[j],
        decreases 7 - i,
    {
        if text.get_char(i) != scheme.get_char(i) {
            assert(text@.subrange(0, 7)[i as int] != bearer_scheme()[i as int]);
            return None;
        }
        i += 1;
    }
    assert(text@.subrange(0, 7) =~= bearer_scheme());
    let rest = text.substring_char(7, n);
    assert(rest@ =~= text@.skip(7));
    Some(String::from_str(rest))
}

/// Reads the `Authorization` header of a request.
pub fn read_authorization(headers: &HeaderMap<HeaderValue>) -> (reading: Authorization)
    ensures
        reading@ == authorization_of(first_value(header_entries(*headers), authorization_name())),
{
    let name = "authorization";
    proof {
        reveal_strlit("authorization");
    }
    assert(name@ =~= authorization_name());
    match header_get(headers, name) {
        None => Authorization::Missing,
        Some(value) => match header_value_to_str(value) {
            Err(_) => Authorization::Malformed,
            Ok(text) => match bearer_token(text) {
                Some(token) => Authorization::Bearer { token },
                None => Authorization::Malformed,
            },
        },
    }
}

} // verus!
