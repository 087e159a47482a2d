//! Media types: the fixed `text/plain`, and the guess made from the
//! extension of an object's key.

use vstd::prelude::*;

verus! {

/// The media type of plain text.
pub open spec fn text_plain() -> Seq<char> {
    "text/plain"@
}

/// What `mime_guess` makes of a path: the first media type that its table
/// lists for the path's extension, in lower case, or `None` where the path
/// has no extension or the table does not list it.
pub uninterp spec fn guessed_media_type(path: Seq<char>) -> Option<Seq<char>>;

/// The content type sent for an object: the guess made from its key, or
/// `text/plain` where there is none.
pub open spec fn content_type_or_text_plain(guess: Option<Seq<char>>) -> Seq<char> {
    match guess {
        Some(media_type) => media_type,
        None => text_plain(),
    }
}

/// Renders the constant `mime::TEXT_PLAIN`, whose text is `text/plain`.
#[verifier::external_body]
pub(crate) fn text_plain_media_type() -> (media_type: String)
    ensures
        media_type@ == text_plain(),
{
    mime::TEXT_PLAIN.to_string()
}

/// Calls `mime_guess::from_path(path).first()` and renders the media type it
/// found, if any. The guess depends on the path alone: the extension is
/// looked up in a fixed table, whose entries all parse as media types. A path
/// without a dot has no extension, and for such a path the guess is empty.
#[verifier::external_body]
pub(crate) fn guess_media_type(path: &str) -> (guess: Option<String>)
    ensures
        guess.deep_view() == guessed_media_type(path@),
        !path@.contains('.') ==> guess is None,
{
    mime_guess::from_path(path).first().map(|media_type| media_type.to_string())
}

/// Picks the content type for an object from the guess made for its key.
pub fn content_type_from_guess(guess: Option<String>) -> (content_type: String)
    ensures
        content_type@ == content_type_or_text_plain(guess.deep_view()),
{
    match guess {
        Some(media_type) => media_type,
        None => text_plain_media_type(),
    }
}

} // verus!
