//! Status codes that the gateway answers with, and the text that goes with
//! each.

use vstd::prelude::*;

verus! {

pub const OK: u16 = 200;

pub const FOUND: u16 = 302;

pub const BAD_REQUEST: u16 = 400;

pub const NOT_FOUND: u16 = 404;

pub const METHOD_NOT_ALLOWED: u16 = 405;

pub const INTERNAL_SERVER_ERROR: u16 = 500;

/// The short text sent as the body of a bare status response.
pub open spec fn reason_phrase(status_code: u16) -> Seq<char> {
    if status_code == OK {
        "OK"@
    } else if status_code == BAD_REQUEST {
        "Bad Request"@
    } else if status_code == NOT_FOUND {
        "Not Found"@
    } else if status_code == METHOD_NOT_ALLOWED {
        "Method Not Allowed"@
    } else if status_code == INTERNAL_SERVER_ERROR {
        "Internal Server Error"@
    } else {
        "Unknown"@
    }
}

/// The text for a status code, as a string slice.
pub fn reason_text(status_code: u16) -> (text: &'static str)
    ensures
        text@ == reason_phrase(status_code),
{
    match status_code {
        200 => "OK",
        400 => "Bad Request",
        404 => "Not Found",
        405 => "Method Not Allowed",
        500 => "Internal Server Error",
        _ => "Unknown",
    }
}

/// Every reason phrase is a non-empty run of letters and spaces.
pub proof fn lemma_reason_phrase_is_plain_text(status_code: u16)
    ensures
        reason_phrase(status_code).len() > 0,
        forall|i: int|
            0 <= i < reason_phrase(status_code).len() ==> ' ' <= #[trigger] reason_phrase(
                status_code,
            )[i] <= '~',
{
    reveal_strlit("OK");
    reveal_strlit("Bad Request");
    reveal_strlit("Not Found");
    reveal_strlit("Method Not Allowed");
    reveal_strlit("Internal Server Error");
    reveal_strlit("Unknown");
}

} // verus!
