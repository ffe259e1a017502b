//! What can go wrong.
use vstd::prelude::*;

verus! {

/// Why a request cannot be expressed or an answer cannot be used.
#[derive(Debug, PartialEq)]
pub enum Error {
    /// The request or the answer is not valid, in words.
    Message(String),
    /// The named feature does not exist on Telegram.
    Unsupported(String),
}

/// What an error says.
pub enum ErrorView {
    Message(Seq<char>),
    Unsupported(Seq<char>),
}

impl View for Error {
    type V = ErrorView;

    open spec fn view(&self) -> ErrorView {
        match *self {
            Error::Message(text) => ErrorView::Message(text@),
            Error::Unsupported(feature) => ErrorView::Unsupported(feature@),
        }
    }
}

/// An outcome by what it says.
pub open spec fn shown<T: View>(result: Result<T, Error>) -> Result<T::V, ErrorView> {
    match result {
        Ok(value) => Ok(value@),
        Err(error) => Err(error@),
    }
}

/// The outcome of a request that is refused with a message.
pub open spec fn refused<T>(text: Seq<char>) -> Result<T, ErrorView> {
    Err(ErrorView::Message(text))
}

/// The outcome of a request for a feature that does not exist on Telegram.
pub open spec fn unsupported_view<T>(feature: Seq<char>) -> Result<T, ErrorView> {
    Err(ErrorView::Unsupported(feature))
}

/// An error with the given message.
pub fn message(text: &str) -> (error: Error)
    ensures
        error@ == ErrorView::Message(text@),
{
    Error::Message(text.to_owned())
}

/// An error for a feature that does not exist on Telegram.
pub fn unsupported(feature: &str) -> (error: Error)
    ensures
        error@ == ErrorView::Unsupported(feature@),
{
    Error::Unsupported(feature.to_owned())
}

} // verus!
