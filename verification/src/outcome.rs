//! What fetching an object from the store can come to.

use vstd::prelude::*;

verus! {

/// The result of looking an object up in the store.
#[derive(Debug, PartialEq, Eq)]
pub enum FetchOutcome {
    /// The object exists: its bytes, and the media type that the store
    /// recorded for it, if any.
    Found { bytes: Vec<u8>, inferred_content_type: Option<String> },
    /// The store holds no object under the key.
    NotFound,
    /// The lookup failed for another reason, described in `detail`.
    TransientError { detail: String },
}

/// A fetch outcome as plain mathematical values.
pub enum FetchOutcomeView {
    Found { bytes: Seq<u8>, inferred_content_type: Option<Seq<char>> },
    NotFound,
    TransientError { detail: Seq<char> },
}

impl View for FetchOutcome {
    type V = FetchOutcomeView;

    open spec fn view(&self) -> FetchOutcomeView {
        match self {
            FetchOutcome::Found { bytes, inferred_content_type } => FetchOutcomeView::Found {
                bytes: bytes@,
                inferred_content_type: inferred_content_type.deep_view(),
            },
            FetchOutcome::NotFound => FetchOutcomeView::NotFound,
            FetchOutcome::TransientError { detail } => FetchOutcomeView::TransientError {
                detail: detail@,
            },
        }
    }
}

} // verus!
