//! Media types.
use vstd::prelude::*;

verus! {

/// The media type that a text names, written out; nothing where it names none.
pub uninterp spec fn named(text: Seq<char>) -> Option<Seq<char>>;

/// `parse` of a text to a `mime_guess::Mime`, and its `Display` form. The result
/// is a function of the text alone, `named`.
#[verifier::external_body]
pub(crate) fn read_mime(text: &str) -> (mime: Option<String>)
    ensures
        match mime {
            Some(mime) => named(text@) == Some(mime@),
            None => named(text@) is None,
        },
{
    text.parse::<mime_guess::Mime>().ok().map(|mime| mime.to_string())
}

/// The first media type that files with this path are known to have; nothing
/// where none is known.
pub uninterp spec fn guessed(path: Seq<char>) -> Option<Seq<char>>;

/// `mime_guess::from_path` and `first`, in the `Display` form. The result is a
/// function of the path alone, `guessed`.
#[verifier::external_body]
pub(crate) fn guess_mime(path: &str) -> (mime: Option<String>)
    ensures
        match mime {
            Some(mime) => guessed(path@) == Some(mime@),
            None => guessed(path@) is None,
        },
{
    mime_guess::from_path(path).first().map(|mime| mime.to_string())
}

} // verus!
