//! The decisions round one HTTP exchange: whether a status is a success, and
//! what a refused request is reported as.

use vstd::prelude::*;
use crate::error::{Error, ErrorView};

verus! {

/// Whether a status code stands for success: the codes from 200 to 299.
pub open spec fn is_success(status: u16) -> bool {
    200 <= status < 300
}

/// The text that stands for a body that could not be read.
pub open spec fn unreadable_body() -> Seq<char> {
    "Error reading response text"@
}

/// The text that a refused request is reported with: the body, or the
/// stand-in where the body could not be read.
pub open spec fn reported_text(body: Option<String>) -> Seq<char> {
    match body {
        Some(text) => text@,
        None => unreadable_body(),
    }
}

/// Whether the body of an answer with this status is to be decoded as an
/// envelope. Otherwise the answer is a refusal and its body is text.
pub fn status_is_success(status: u16) -> (b: bool)
    ensures
        b == is_success(status),
{
    200 <= status && status < 300
}

/// The error for an answer with a status that is no success. `body` is the
/// text of the answer, or nothing where reading it failed: the error then
/// carries a stand-in, so that reading the body never fails the report.
pub fn server_error(status: u16, body: Option<String>) -> (e: Error)
    ensures
        e@ == ErrorView::ServerError(status, reported_text(body)),
{
    let text = match body {
        Some(text) => text,
        None => "Error reading response text".to_owned(),
    };
    Error::ServerError(status, text)
}

} // verus!
