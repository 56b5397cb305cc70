//! The handlers of the notes and users endpoints.
pub mod notes;
pub mod users;
