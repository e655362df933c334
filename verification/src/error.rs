//! Why a command fails.

use vstd::prelude::*;
use vstd::string::*;
use crate::verb::{Verb, verb_name, verb_arguments};

verus! {

/// The ways in which a command fails.
#[derive(Clone, Debug, PartialEq, Eq)]
pub enum RatingError {
    /// The verb was given the wrong number of arguments.
    Usage { verb: Verb },
    /// A count, or a stored counter, is not a decimal 64-bit integer.
    InvalidArgument { text: String },
    /// A counter plus the count does not fit in 64 bits.
    Overflow,
    /// The host could not read or write a counter.
    Store,
}

/// A `RatingError` with its text as a sequence of characters.
pub enum ErrorView {
    Usage { verb: Verb },
    InvalidArgument { text: Seq<char> },
    Overflow,
    Store,
}

impl View for RatingError {
    type V = ErrorView;

    open spec fn view(&self) -> ErrorView {
        match *self {
            RatingError::Usage { verb } => ErrorView::Usage { verb },
            RatingError::InvalidArgument { text } => ErrorView::InvalidArgument { text: text@ },
            RatingError::Overflow => ErrorView::Overflow,
            RatingError::Store => ErrorView::Store,
        }
    }
}

/// The message that the host shows for an error.
pub open spec fn error_message(error: ErrorView) -> Seq<char> {
    match error {
        ErrorView::Usage { verb } => "Usage: "@ + verb_name(verb) + verb_arguments(verb),
        ErrorView::InvalidArgument { text } => "Couldn't parse as integer: "@ + text,
        ErrorView::Overflow => "Counter out of range"@,
        ErrorView::Store => "Counter could not be read or written"@,
    }
}

impl RatingError {
    /// The message for the host to reply with.
    pub fn message(&self) -> (out: String)
        ensures
            out@ == error_message(self@),
    {
        match self {
            RatingError::Usage { verb } => {
                let mut out = String::from_str("Usage: ");
                out.append(verb.name());
                out.append(verb.arguments());
                out
            },
            RatingError::InvalidArgument { text } => {
                let mut out = String::from_str("Couldn't parse as integer: ");
                out.append(text.as_str());
                out
            },
            RatingError::Overflow => String::from_str("Counter out of range"),
            RatingError::Store => String::from_str("Counter could not be read or written"),
        }
    }
}

} // verus!
