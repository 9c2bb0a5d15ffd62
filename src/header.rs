//! Validity of HTTP header values.
use vstd::prelude::*;

use reqwest::header::{HeaderValue, InvalidHeaderValue};

verus! {

#[verifier::external_type_specification]
#[verifier::external_body]
pub struct ExHeaderValue(HeaderValue);

#[verifier::external_type_specification]
#[verifier::external_body]
pub struct ExInvalidHeaderValue(InvalidHeaderValue);

/// A character that may stand in a header value: a horizontal tab, or any
/// character other than the ASCII control characters and DEL. Characters
/// outside ASCII are encoded in UTF-8 with bytes of 128 and above, all of
/// which are allowed.
pub open spec fn valid_header_char(c: char) -> bool {
    c == '\t' || (c as u32 >= 32 && c as u32 != 127)
}

pub open spec fn valid_header_text(s: Seq<char>) -> bool {
    forall|i: int| 0 <= i < s.len() ==> #[trigger] valid_header_char(s[i])
}

/// Relies on `http::HeaderValue::from_str` (re-exported by reqwest): it
/// refuses a text exactly when one of its bytes is neither a tab nor in
/// 32..=255 without 127.
#[verifier::external_body]
fn parse_header_value(s: &str) -> (r: Result<HeaderValue, InvalidHeaderValue>)
    ensures
        r is Ok <==> valid_header_text(s@),
{
    HeaderValue::from_str(s)
}

/// Whether `s` can be sent as the value of an HTTP header.
pub fn check_header_value(s: &str) -> (r: bool)
    ensures
        r == valid_header_text(s@),
{
    match parse_header_value(s) {
        Ok(_) => true,
        Err(_) => false,
    }
}

} // verus!

verus! {

/// A text that holds a line break anywhere cannot be a header value.
pub proof fn lemma_line_break_invalid(s: Seq<char>, i: int)
    requires
        0 <= i < s.len(),
        s[i] == '\n' || s[i] == '\r',
    ensures
        !valid_header_text(s),
{
    assert(!valid_header_char(s[i]));
}

} // verus!
