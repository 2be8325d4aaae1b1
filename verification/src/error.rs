//! The failures that a request can end in.

use vstd::prelude::*;

verus! {

/// Why a request failed.
#[derive(Clone, Debug, PartialEq, Eq)]
pub enum Error {
    /// Both `before` and `after` were given.
    CursorNoBeforeAfter,
    /// Both `first` and `last` were given.
    CursorNoFirstLast,
    /// `before` or `last` was given: pages are only read forwards.
    CursorNoReversePagination,
    /// The `after` cursor is no object identifier; holds the parser's words.
    InvalidCursor(String),
    /// An item of a page came with an error; holds that item's error.
    CursorConnectionFetchFailed(String),
    /// The client's answer broke its own contract; holds what was missing.
    Internal(String),
    /// The client could not be reached or its answer could not be decoded;
    /// holds the client's words unchanged.
    Client(String),
}

/// The model of an [`Error`]: the same cases, with texts as sequences.
pub enum ErrorView {
    CursorNoBeforeAfter,
    CursorNoFirstLast,
    CursorNoReversePagination,
    InvalidCursor(Seq<char>),
    CursorConnectionFetchFailed(Seq<char>),
    Internal(Seq<char>),
    Client(Seq<char>),
}

impl View for Error {
    type V = ErrorView;

    open spec fn view(&self) -> ErrorView {
        match self {
            Error::CursorNoBeforeAfter => ErrorView::CursorNoBeforeAfter,
            Error::CursorNoFirstLast => ErrorView::CursorNoFirstLast,
            Error::CursorNoReversePagination => ErrorView::CursorNoReversePagination,
            Error::InvalidCursor(m) => ErrorView::InvalidCursor(m@),
            Error::CursorConnectionFetchFailed(m) => ErrorView::CursorConnectionFetchFailed(m@),
            Error::Internal(m) => ErrorView::Internal(m@),
            Error::Client(m) => ErrorView::Client(m@),
        }
    }
}

impl ErrorView {
    /// The message that the error carries to the caller.
    pub open spec fn message(self) -> Seq<char> {
        match self {
            ErrorView::CursorNoBeforeAfter => "'before' and 'after' must not be used together"@,
            ErrorView::CursorNoFirstLast => "'first' and 'last' must not be used together"@,
            ErrorView::CursorNoReversePagination => "Reverse pagination is not supported"@,
            ErrorView::InvalidCursor(m) => "Invalid cursor: "@ + m,
            ErrorView::CursorConnectionFetchFailed(m) => "Fetching a page item failed: "@ + m,
            ErrorView::Internal(m) => "Internal error: "@ + m,
            ErrorView::Client(m) => m,
        }
    }
}

impl Error {
    /// The human-readable message of the error.
    pub fn message(&self) -> (s: String)
        ensures
            s@ == self@.message(),
    {
        match self {
            Error::CursorNoBeforeAfter => String::from_str(
                "'before' and 'after' must not be used together",
            ),
            Error::CursorNoFirstLast => String::from_str(
                "'first' and 'last' must not be used together",
            ),
            Error::CursorNoReversePagination => String::from_str(
                "Reverse pagination is not supported",
            ),
            Error::InvalidCursor(m) => String::from_str("Invalid cursor: ").concat(m.as_str()),
            Error::CursorConnectionFetchFailed(m) => String::from_str(
                "Fetching a page item failed: ",
            ).concat(m.as_str()),
            Error::Internal(m) => String::from_str("Internal error: ").concat(m.as_str()),
            Error::Client(m) => m.clone(),
        }
    }
}

} // verus!
