//! The older `/notes` handlers: creation with default tag and category
//! lists, lookups that answer 400 on a malformed id, and Portuguese
//! messages.
use vstd::prelude::*;
use crate::clock::{instant_in_range, now_rfc3339, rfc3339_text, UtcInstant};
use crate::controller::notes::{
    canonical_id, delete_all_reply, delete_note_target, delete_reply, get_all_notes_reply,
    get_note_by_id_reply as lookup_reply, new_record_id, ok_notes, post_new_note_reply,
};
use crate::models::{Note, UpdateNote};
use crate::reply::{
    is_empty_reply, is_json_reply, is_message_reply, is_text_reply, Body, DbError, HttpReply,
    Reply,
};
use crate::text::decimal;
use crate::uuid_text::{is_v4_bytes, uuid_hyphenated, uuid_text_bytes};

verus! {

/// A list, empty when absent.
pub open spec fn or_empty(l: Option<Vec<String>>) -> Seq<String> {
    match l {
        Some(v) => v@,
        None => Seq::empty(),
    }
}

/// A note created by `create_note`: title and content from the request,
/// its tags and categories (empty when not given), empty attachment,
/// version and export lists.
pub open spec fn is_created_note(
    n: Note,
    info: UpdateNote,
    id: Seq<char>,
    created_at: Seq<char>,
    updated_at: Seq<char>,
) -> bool {
    &&& n.id@ == id
    &&& n.title == info.title
    &&& n.content == info.content
    &&& n.created_at@ == created_at
    &&& n.updated_at@ == updated_at
    &&& (n.tags matches Some(t) && t@ == or_empty(info.tags))
    &&& (n.categories matches Some(c) && c@ == or_empty(info.categories))
    &&& n.attachments@.len() == 0
    &&& n.version_history@.len() == 0
    &&& n.export_options@.len() == 0
}

fn unwrap_or_empty(l: Option<Vec<String>>) -> (r: Vec<String>)
    ensures
        r@ == or_empty(l),
{
    match l {
        Some(v) => v,
        None => Vec::new(),
    }
}

/// The note `create_note` stores, for a given id and times.
pub fn build_created_note(info: UpdateNote, id: String, created_at: String, updated_at: String) -> (n:
    Note)
    ensures
        is_created_note(n, info, id@, created_at@, updated_at@),
        n.id@ == id@,
        n.title == info.title,
        n.content == info.content,
        n.tags matches Some(t) && t@ == (match info.tags {
            Some(g) => g@,
            None => Seq::empty(),
        }),
        n.categories matches Some(c) && c@ == (match info.categories {
            Some(g) => g@,
            None => Seq::empty(),
        }),
        n.created_at@ == created_at@,
        n.updated_at@ == updated_at@,
{
    Note {
        id,
        title: info.title,
        content: info.content,
        created_at,
        updated_at,
        tags: Some(unwrap_or_empty(info.tags)),
        categories: Some(unwrap_or_empty(info.categories)),
        attachments: Vec::new(),
        version_history: Vec::new(),
        export_options: Vec::new(),
    }
}

/// The note `create_note` stores: a fresh version-4 UUID as id and the
/// current time (read twice) as creation and update times.
pub fn create_note_record(info: UpdateNote) -> (n: Note)
    ensures
        exists|b: Seq<u8>, t1: UtcInstant, t2: UtcInstant|
            is_v4_bytes(b) && instant_in_range(t1) && instant_in_range(t2) && is_created_note(
                n,
                info,
                uuid_hyphenated(b),
                rfc3339_text(t1.secs, t1.nanos),
                rfc3339_text(t2.secs, t2.nanos),
            ),
{
    let id = new_record_id();
    let created_at = now_rfc3339();
    let updated_at = now_rfc3339();
    build_created_note(info, id, created_at, updated_at)
}

/// The answer after inserting a created note: the note, or 500.
pub fn create_note_reply(note: Note, inserted: Result<(), DbError>) -> (r: HttpReply)
    ensures
        inserted is Ok ==> is_json_reply(r, 200, Reply::Note(note)),
        inserted is Err ==> is_empty_reply(r, 500),
{
    post_new_note_reply(note, inserted)
}

/// The answer of `list_notes`: 200 with the notes that were read.
pub fn list_notes_reply(results: Vec<Result<Note, DbError>>) -> (r: HttpReply)
    ensures
        r.status == 200,
        r.body matches Body::Json(Reply::Notes(v)) && v@ == ok_notes(results@),
{
    get_all_notes_reply(results)
}

/// The id a lookup or a delete filters on, or 400 "Invalid UUID".
pub fn note_target(id: &str) -> (r: Result<String, HttpReply>)
    ensures
        uuid_text_bytes(id@) is Some ==> (r matches Ok(t) && t@ == canonical_id(id@)),
        uuid_text_bytes(id@) is None ==> (r matches Err(reply) && is_text_reply(
            reply,
            400,
            "Invalid UUID"@,
        )),
{
    delete_note_target(id)
}

/// The answer to a lookup by id: the note, 404, or 500.
pub fn get_note_by_id_reply(found: Result<Option<Note>, DbError>) -> (r: HttpReply)
    ensures
        found matches Ok(Some(n)) ==> is_json_reply(r, 200, Reply::Note(n)),
        found matches Ok(None) ==> is_empty_reply(r, 404),
        found is Err ==> is_empty_reply(r, 500),
{
    lookup_reply(found)
}

/// The answer of `delete_note` after the delete, always 200.
pub fn delete_note_reply(deleted: Result<Option<Note>, DbError>) -> (r: HttpReply)
    ensures
        r.status == 200,
        deleted matches Ok(Some(n)) ==> (r.body matches Body::Json(Reply::MessageAndNote { message, field, note })
            && message@ == "Nota deletada com sucesso!"@ && field@ == "nota"@ && note == n),
        deleted matches Ok(None) ==> is_message_reply(
            r,
            200,
            "Oopss! Nota não encontrada. Verifique o ID informado."@,
        ),
        deleted is Err ==> is_message_reply(
            r,
            200,
            "Oopss! Ocorreu um erro ao deletar a nota. Verifique o ID informado."@,
        ),
{
    delete_reply(
        deleted,
        "Nota deletada com sucesso!",
        "nota",
        "Oopss! Nota não encontrada. Verifique o ID informado.",
        "Oopss! Ocorreu um erro ao deletar a nota. Verifique o ID informado.",
    )
}

/// The answer of `delete_all_notes`: how many notes were deleted, or 500.
pub fn delete_all_notes_reply(deleted: Result<u64, DbError>) -> (r: HttpReply)
    ensures
        deleted matches Ok(c) ==> is_message_reply(
            r,
            200,
            decimal(c as nat) + " notas foram excluídas com sucesso."@,
        ),
        deleted is Err ==> is_message_reply(
            r,
            500,
            "Oopss! Ocorreu um erro ao tentar excluir todas as notas."@,
        ),
{
    delete_all_reply(
        deleted,
        " notas foram excluídas com sucesso.",
        "Oopss! Ocorreu um erro ao tentar excluir todas as notas.",
    )
}

} // verus!
