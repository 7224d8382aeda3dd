use vstd::prelude::*;
use reqwest::header::{HeaderValue, InvalidHeaderValue};

verus! {

/// A header value of the HTTP stack, held opaquely.
#[verifier::external_type_specification]
#[verifier::external_body]
pub struct ExHeaderValue(HeaderValue);

/// The error of a rejected header value.
#[verifier::external_type_specification]
#[verifier::external_body]
pub struct ExInvalidHeaderValue(InvalidHeaderValue);

/// A character that may stand in a header value: a tab, or any character
/// from the space on except DEL. Characters beyond ASCII are encoded as
/// bytes of 128 and above, which are all accepted.
pub open spec fn is_header_char(c: char) -> bool {
    c == '\t' || (c as u32 >= 32 && c as u32 != 127)
}

/// Text that may stand in a header value.
pub open spec fn is_header_text(s: Seq<char>) -> bool {
    forall|i: int| 0 <= i < s.len() ==> is_header_char(#[trigger] s[i])
}

/// Relies on `HeaderValue::from_str` of the `http` crate (re-exported by
/// reqwest): it rejects the text exactly when one of its bytes is below 32
/// and not a tab, or is 127.
#[verifier::external_body]
pub(crate) fn header_value(text: &str) -> (r: Result<HeaderValue, InvalidHeaderValue>)
    ensures
        r is Ok <==> is_header_text(text@),
{
    HeaderValue::from_str(text)
}

} // verus!
