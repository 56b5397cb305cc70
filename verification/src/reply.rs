//! What a handler answers: a status code and a body, kept as values so
//! that the decisions can be stated; the web layer renders them.
use vstd::prelude::*;
use crate::models::Note;
use crate::models::users::User;
use crate::routes::ApiInfo;

verus! {

/// A JSON reply body.
#[derive(Clone, Debug, PartialEq)]
pub enum Reply {
    /// One note.
    Note(Note),
    /// A list of notes.
    Notes(Vec<Note>),
    /// One user record.
    User(User),
    /// `{"token": ..}`.
    Token(String),
    /// The service description served at `/`.
    Info(ApiInfo),
    /// `{"message": ..}`.
    Message(String),
    /// `{"message": .., <field>: note}`.
    MessageAndNote { message: String, field: String, note: Note },
    /// `{"message": .., "error": ..}`.
    MessageAndError { message: String, error: String },
}

/// A reply body: none, plain text, or JSON.
#[derive(Clone, Debug, PartialEq)]
pub enum Body {
    Empty,
    Text(String),
    Json(Reply),
}

/// An HTTP reply.
#[derive(Clone, Debug, PartialEq)]
pub struct HttpReply {
    pub status: u16,
    pub body: Body,
}

/// A failed database operation, by its `Display` and `Debug` texts.
#[derive(Clone, Debug, PartialEq)]
pub struct DbError {
    pub display: String,
    pub debug: String,
}

/// A reply with a status and no body.
pub open spec fn is_empty_reply(r: HttpReply, status: u16) -> bool {
    r.status == status && r.body is Empty
}

/// A reply with a status and a plain-text body.
pub open spec fn is_text_reply(r: HttpReply, status: u16, text: Seq<char>) -> bool {
    r.status == status && (r.body matches Body::Text(t) && t@ == text)
}

/// A reply with a status and a `{"message": ..}` body.
pub open spec fn is_message_reply(r: HttpReply, status: u16, message: Seq<char>) -> bool {
    r.status == status && (r.body matches Body::Json(Reply::Message(m)) && m@ == message)
}

/// A reply with a status and a JSON body.
pub open spec fn is_json_reply(r: HttpReply, status: u16, body: Reply) -> bool {
    r.status == status && r.body == Body::Json(body)
}

pub fn empty_reply(status: u16) -> (r: HttpReply)
    ensures
        is_empty_reply(r, status),
{
    HttpReply { status, body: Body::Empty }
}

pub fn text_reply(status: u16, text: &str) -> (r: HttpReply)
    ensures
        is_text_reply(r, status, text@),
{
    HttpReply { status, body: Body::Text(text.to_string()) }
}

pub fn message_reply(status: u16, message: &str) -> (r: HttpReply)
    ensures
        is_message_reply(r, status, message@),
{
    HttpReply { status, body: Body::Json(Reply::Message(message.to_string())) }
}

pub fn json_reply(status: u16, body: Reply) -> (r: HttpReply)
    ensures
        is_json_reply(r, status, body),
{
    HttpReply { status, body: Body::Json(body) }
}

} // verus!
