//! HTTP header names and the validity of header values.

use vstd::prelude::*;

verus! {

pub const AUTHORIZATION_HEADER: &'static str = "Authorization";

pub const CLIENT_ID_HEADER: &'static str = "Amazon-Advertising-API-ClientId";

pub const SCOPE_HEADER: &'static str = "Amazon-Advertising-API-Scope";

pub const CONTENT_TYPE_HEADER: &'static str = "Content-Type";

pub const ACCEPT_HEADER: &'static str = "Accept";

/// A character that may stand in a header value: tab, or any character from
/// space upward but DEL (the bytes of a non-ASCII character are all accepted).
pub open spec fn header_char_valid(c: char) -> bool {
    c == '\t' || (c as u32 >= 32 && c as u32 != 127)
}

pub open spec fn header_value_valid(s: Seq<char>) -> bool {
    forall|i: int| 0 <= i < s.len() ==> header_char_valid(#[trigger] s[i])
}

/// Relies on `http::HeaderValue::from_str`, which accepts a string exactly
/// when each of its bytes is a tab or at least 32 and not 127.
#[verifier::external_body]
pub(crate) fn is_header_value(s: &str) -> (r: bool)
    ensures
        r == header_value_valid(s@),
{
    http::HeaderValue::from_str(s).is_ok()
}

} // verus!
