//! Which HTTP statuses count as success.

use crate::text::decimal;
use vstd::prelude::*;

verus! {

/// The status with this code as it is written out: code and reason phrase.
pub uninterp spec fn status_line(code: u16) -> Seq<char>;

/// Whether a number is the code of an HTTP status.
pub open spec fn status_code(code: u16) -> bool {
    100 <= code <= 999
}

/// Whether a status is a success.
pub open spec fn success(code: u16) -> bool {
    200 <= code <= 299
}

/// Calls `reqwest::StatusCode::from_u16`, which accepts the codes from 100 to 999, and writes the
/// status out by its `Display`. The claim: the result depends on the code alone, and begins with
/// the code in decimal and a space; which reason phrase follows is left unsaid.
#[verifier::external_body]
pub(crate) fn write_status(code: u16) -> (r: String)
    requires
        status_code(code),
    ensures
        r@ == status_line(code),
        (decimal(code as nat) + " "@).is_prefix_of(r@),
{
    reqwest::StatusCode::from_u16(code).unwrap().to_string()
}

/// Whether a status is a success.
pub fn is_success(code: u16) -> (r: bool)
    ensures
        r == success(code),
{
    200 <= code && code <= 299
}

// ---------------------------------------------------------------------------
// Laws
// ---------------------------------------------------------------------------

/// The statuses that are a success are those from 200 to 299, and a status has a code from 100 to
/// 999.
pub proof fn law_success(code: u16)
    ensures
        success(code) <==> code / 100 == 2,
        status_code(code) <==> 1 <= code / 100 <= 9,
{
}

} // verus!
