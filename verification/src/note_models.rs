//! The minimal note shape used by the collection-index setup.
use vstd::prelude::*;

verus! {

/// A note with only a title and a content, the shape the unique-title
/// index is declared on.
#[derive(Clone, Debug, PartialEq)]
pub struct Note {
    pub title: String,
    pub content: String,
}

} // verus!
