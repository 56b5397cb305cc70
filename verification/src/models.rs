//! The note records kept in the `Notes` collection and the request bodies
//! that create or change them.
use vstd::prelude::*;

pub mod users;

verus! {

/// A stored note.
#[derive(Clone, Debug, PartialEq)]
pub struct Note {
    pub id: String,
    pub title: Option<String>,
    pub content: Option<String>,
    pub created_at: String,
    pub updated_at: String,
    pub tags: Option<Vec<String>>,
    pub categories: Option<Vec<String>>,
    pub attachments: Vec<Attachment>,
    pub version_history: Vec<Version>,
    pub export_options: Vec<String>,
}

/// The body of a request that creates a note or patches one.
#[derive(Clone, Debug, PartialEq)]
pub struct CreateAndUpdateNote {
    pub title: Option<String>,
    pub content: Option<String>,
    pub tags: Option<Vec<String>>,
    pub categories: Option<Vec<String>>,
    pub attachments: Option<Vec<Attachment>>,
    pub version_history: Option<Vec<Version>>,
    pub export_options: Option<Vec<String>>,
}

/// The body of a request that creates a note through the older
/// `/notes` handlers: the four fields a client may set.
#[derive(Clone, Debug, PartialEq)]
pub struct UpdateNote {
    pub title: Option<String>,
    pub content: Option<String>,
    pub tags: Option<Vec<String>>,
    pub categories: Option<Vec<String>>,
}

/// A file attached to a note.
#[derive(Clone, Debug, PartialEq)]
pub struct Attachment {
    pub id: String,
    pub file_name: String,
    pub file_type: String,
    pub file_size: i64,
    pub url: String,
}

/// An earlier version of a note's content.
#[derive(Clone, Debug, PartialEq)]
pub struct Version {
    pub version_id: String,
    pub created_at: String,
    pub content: String,
}

} // verus!
