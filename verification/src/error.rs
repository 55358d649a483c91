//! The ways in which fetching a post or its comments can fail.

use vstd::prelude::*;

verus! {

/// Why a post or a comment thread could not be produced.
#[derive(Debug, Clone, PartialEq, Eq)]
pub enum Error {
    /// The exchange itself failed, or the body was not an envelope at all.
    /// Carries the description of the cause.
    Reqwest(String),
    /// The server answered with a status outside 200..=299. Carries the
    /// status code and the text of the body.
    ServerError(u16, String),
    /// The service knows no post with the requested identifier.
    NotFound,
    /// The envelope was well formed but lacks the field at this dotted path.
    MalformattedResponse(&'static str),
}

/// The mathematical content of an [`Error`].
pub enum ErrorView {
    Reqwest(Seq<char>),
    ServerError(u16, Seq<char>),
    NotFound,
    MalformattedResponse(Seq<char>),
}

impl View for Error {
    type V = ErrorView;

    open spec fn view(&self) -> ErrorView {
        match *self {
            Error::Reqwest(cause) => ErrorView::Reqwest(cause@),
            Error::ServerError(status, text) => ErrorView::ServerError(status, text@),
            Error::NotFound => ErrorView::NotFound,
            Error::MalformattedResponse(path) => ErrorView::MalformattedResponse(path@),
        }
    }
}

/// The view of a fallible result: the view of whichever side it holds.
pub open spec fn view_result<T: View, E: View>(r: Result<T, E>) -> Result<T::V, E::V> {
    match r {
        Ok(t) => Ok(t@),
        Err(e) => Err(e@),
    }
}

} // verus!
