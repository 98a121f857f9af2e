//! The errors that end a run.

use vstd::prelude::*;
use vstd::string::*;

verus! {

/// Why a run failed. Each kind carries the message to report.
#[derive(Debug, Clone)]
pub enum HnError {
    /// What was asked for is not allowed.
    Validation(String),
    /// The list of story identifiers could not be fetched.
    Transport(String),
    /// The terminal failed during a selection.
    Interaction(String),
}

/// What an `HnError` holds, with its message as characters.
pub enum ErrorView {
    Validation(Seq<char>),
    Transport(Seq<char>),
    Interaction(Seq<char>),
}

impl ErrorView {
    /// The message of an error.
    pub open spec fn message(self) -> Seq<char> {
        match self {
            ErrorView::Validation(message) => message,
            ErrorView::Transport(message) => message,
            ErrorView::Interaction(message) => message,
        }
    }
}

impl View for HnError {
    type V = ErrorView;

    open spec fn view(&self) -> ErrorView {
        match *self {
            HnError::Validation(message) => ErrorView::Validation(message@),
            HnError::Transport(message) => ErrorView::Transport(message@),
            HnError::Interaction(message) => ErrorView::Interaction(message@),
        }
    }
}

impl HnError {
    /// The message to report for this error.
    pub fn message(&self) -> (r: String)
        ensures
            r@ == self@.message(),
    {
        match self {
            HnError::Validation(message) => message.clone(),
            HnError::Transport(message) => message.clone(),
            HnError::Interaction(message) => message.clone(),
        }
    }
}

/// Result type for Hacker News operations
pub type HnResult<T> = Result<T, HnError>;

} // verus!
