//! The decisions of the `/notes` handlers: which query to run, how to
//! build or patch a note, and what to answer for each database outcome.
//! The handlers themselves await the database between these steps.
use vstd::prelude::*;
use crate::clock::{now_rfc3339, rfc3339_text, UtcInstant, instant_in_range};
use crate::models::{CreateAndUpdateNote, Note};
use crate::reply::{
    empty_reply, is_empty_reply, is_json_reply, is_message_reply, is_text_reply, json_reply,
    message_reply, text_reply, Body, DbError, HttpReply, Reply,
};
use crate::text::{decimal, push_decimal};
use crate::uuid_text::{
    is_v4_bytes, uuid_hyphenated, uuid_new_v4, uuid_parse_str, uuid_text_bytes, uuid_to_string,
};

verus! {

/// The query string of `GET /notes`.
#[derive(Clone, Debug, PartialEq)]
pub struct PaginationParams {
    pub page: Option<i64>,
    pub page_size: Option<i64>,
    pub tag: Option<String>,
    pub category: Option<String>,
    pub created_after: Option<String>,
}

/// The filter of a note listing: notes whose `tags` hold `tag`, whose
/// `categories` hold `category`, and whose `created_at` is at least
/// `created_after`; an absent field does not filter.
#[derive(Clone, Debug, PartialEq)]
pub struct NoteFilter {
    pub tag: Option<String>,
    pub category: Option<String>,
    pub created_after: Option<String>,
}

/// How many matching notes a listing skips and how many it returns.
#[derive(Clone, Copy, Debug, PartialEq, Eq)]
pub struct FindWindow {
    pub skip: u64,
    pub limit: i64,
}

impl PaginationParams {
    /// The page asked for, 1 by default.
    pub open spec fn page_number(self) -> int {
        match self.page {
            Some(p) => p as int,
            None => 1,
        }
    }

    /// The page length asked for, 10 by default.
    pub open spec fn page_length(self) -> int {
        match self.page_size {
            Some(s) => s as int,
            None => 10,
        }
    }

    /// `(page - 1) * page_size`.
    pub open spec fn skip_count(self) -> int {
        (self.page_number() - 1) * self.page_length()
    }

    /// The 64-bit arithmetic of the listing does not overflow.
    pub open spec fn window_fits(self) -> bool {
        &&& i64::MIN <= self.page_number() - 1
        &&& i64::MIN <= self.skip_count() <= i64::MAX
    }
}

/// A signed count read as an unsigned 64-bit number (two's complement).
pub open spec fn as_unsigned(x: int) -> int {
    if x >= 0 {
        x
    } else {
        x + 0x1_0000_0000_0000_0000
    }
}

/// The window of `GET /notes`: skip `(page - 1) * page_size` notes, read
/// as unsigned, and return at most `page_size`.
pub fn get_all_notes_window(params: &PaginationParams) -> (w: FindWindow)
    requires
        params.window_fits(),
    ensures
        w.skip as int == as_unsigned(params.skip_count()),
        w.limit as int == params.page_length(),
{
    let page: i64 = match params.page {
        Some(p) => p,
        None => 1,
    };
    let page_size: i64 = match params.page_size {
        Some(s) => s,
        None => 10,
    };
    let skip: i64 = (page - 1) * page_size;
    let unsigned: u64 = skip as u64;
    assert(skip >= 0 ==> unsigned == skip) by (bit_vector)
        requires
            unsigned == skip as u64,
    ;
    assert(skip < 0 ==> unsigned == skip + 0x1_0000_0000_0000_0000) by (bit_vector)
        requires
            unsigned == skip as u64,
    ;
    FindWindow { skip: unsigned, limit: page_size }
}

/// The window of `GET /notes`, or `None` when its 64-bit arithmetic
/// would overflow (the handler stops there).
pub fn try_get_all_notes_window(params: &PaginationParams) -> (w: Option<FindWindow>)
    ensures
        w is None <==> !params.window_fits(),
        w matches Some(w) ==> w.skip as int == as_unsigned(params.skip_count()) && w.limit as int
            == params.page_length(),
{
    let page: i64 = match params.page {
        Some(p) => p,
        None => 1,
    };
    let page_size: i64 = match params.page_size {
        Some(s) => s,
        None => 10,
    };
    if page == i64::MIN {
        return None;
    }
    match (page - 1).checked_mul(page_size) {
        Some(_) => Some(get_all_notes_window(params)),
        None => None,
    }
}

fn clone_text(o: &Option<String>) -> (r: Option<String>)
    ensures
        r == *o,
{
    match o {
        Some(s) => Some(s.clone()),
        None => None,
    }
}

/// The filter of `GET /notes`, from the query's `tag`, `category` and
/// `created_after`.
pub fn get_all_notes_filter(params: &PaginationParams) -> (f: NoteFilter)
    ensures
        f.tag == params.tag,
        f.category == params.category,
        f.created_after == params.created_after,
{
    NoteFilter {
        tag: clone_text(&params.tag),
        category: clone_text(&params.category),
        created_after: clone_text(&params.created_after),
    }
}

/// One condition of a listing's database filter: the document's `field`
/// equals `value`, or, with an operator, compares to it by that operator.
#[derive(Clone, Debug, PartialEq)]
pub struct FilterClause {
    pub field: String,
    pub operator: Option<String>,
    pub value: String,
}

impl FilterClause {
    pub open spec fn view_tuple(self) -> (Seq<char>, Option<Seq<char>>, Seq<char>) {
        (
            self.field@,
            match self.operator {
                Some(o) => Some(o@),
                None => None,
            },
            self.value@,
        )
    }
}

/// The conditions of a listing, in order: `tags` equal to the tag,
/// `categories` equal to the category, `created_at` `$gte` the date; an
/// absent field gives no condition.
pub open spec fn filter_clauses(f: NoteFilter) -> Seq<(Seq<char>, Option<Seq<char>>, Seq<char>)> {
    let tag = match f.tag {
        Some(t) => seq![("tags"@, None, t@)],
        None => Seq::empty(),
    };
    let category = match f.category {
        Some(c) => seq![("categories"@, None, c@)],
        None => Seq::empty(),
    };
    let created = match f.created_after {
        Some(d) => seq![("created_at"@, Some("$gte"@), d@)],
        None => Seq::empty(),
    };
    tag + category + created
}

/// The database conditions of a listing's filter.
pub fn note_filter_clauses(f: &NoteFilter) -> (r: Vec<FilterClause>)
    ensures
        r@.map_values(|c: FilterClause| c.view_tuple()) == filter_clauses(*f),
{
    let mut r: Vec<FilterClause> = Vec::new();
    if let Some(t) = &f.tag {
        r.push(FilterClause { field: "tags".to_string(), operator: None, value: t.clone() });
    }
    if let Some(c) = &f.category {
        r.push(FilterClause { field: "categories".to_string(), operator: None, value: c.clone() });
    }
    if let Some(d) = &f.created_after {
        r.push(
            FilterClause {
                field: "created_at".to_string(),
                operator: Some("$gte".to_string()),
                value: d.clone(),
            },
        );
    }
    assert(r@.map_values(|c: FilterClause| c.view_tuple()) =~= filter_clauses(*f));
    r
}

/// The notes among database results, in order, the failed reads left out.
pub open spec fn ok_notes(rs: Seq<Result<Note, DbError>>) -> Seq<Note>
    decreases rs.len(),
{
    if rs.len() == 0 {
        Seq::empty()
    } else {
        let rest = ok_notes(rs.drop_last());
        match rs.last() {
            Ok(n) => rest.push(n),
            Err(_) => rest,
        }
    }
}

/// Keeps the notes that were read, in order, and drops the failed reads.
pub fn keep_ok_notes(results: Vec<Result<Note, DbError>>) -> (r: Vec<Note>)
    ensures
        r@ == ok_notes(results@),
{
    let ghost all = results@;
    let mut out: Vec<Note> = Vec::new();
    let mut rest = results;
    let mut back: Vec<Note> = Vec::new();
    // Walk from the back, collecting the notes in reverse.
    while rest.len() > 0
        invariant
            rest@ == all.take(rest@.len() as int),
            rest@.len() <= all.len(),
            ok_notes(all) == ok_notes(rest@) + back@.reverse(),
        decreases rest.len(),
    {
        let ghost before = rest@;
        let r = rest.pop().unwrap();
        assert(rest@ == before.drop_last());
        assert(rest@ =~= all.take(rest@.len() as int));
        match r {
            Ok(note) => {
                let ghost old_back = back@;
                back.push(note);
                assert(back@.reverse() =~= seq![note] + old_back.reverse());
                assert(ok_notes(before) == ok_notes(rest@).push(note));
                assert(ok_notes(rest@).push(note) + old_back.reverse() =~= ok_notes(rest@) + back@.reverse());
            },
            Err(_) => {
                assert(ok_notes(before) == ok_notes(rest@));
            },
        }
    }
    assert(ok_notes(rest@) =~= Seq::<Note>::empty());
    // Reverse `back` into `out`.
    while back.len() > 0
        invariant
            ok_notes(all) == out@ + back@.reverse(),
        decreases back.len(),
    {
        let ghost before = back@;
        let note = back.pop().unwrap();
        assert(before.reverse() =~= seq![note] + back@.reverse());
        out.push(note);
        assert(out@ + back@.reverse() =~= ok_notes(all));
    }
    assert(back@.reverse() =~= Seq::<Note>::empty());
    assert(out@ =~= ok_notes(all));
    out
}

/// The answer of `GET /notes`: 200 with the notes that were read.
pub fn get_all_notes_reply(results: Vec<Result<Note, DbError>>) -> (r: HttpReply)
    ensures
        r.status == 200,
        r.body matches Body::Json(Reply::Notes(v)) && v@ == ok_notes(results@),
{
    let notes = keep_ok_notes(results);
    json_reply(200, Reply::Notes(notes))
}

/// Whether `Uuid::parse_str` accepts a text.
pub fn is_uuid_text(s: &str) -> (r: bool)
    ensures
        r == uuid_text_bytes(s@) is Some,
{
    uuid_parse_str(s).is_ok()
}

/// The bytes of a UUID text; the text must parse.
fn convert_uuid(uuid: String) -> (r: [u8; 16])
    requires
        uuid_text_bytes(uuid@) is Some,
    ensures
        uuid_text_bytes(uuid@) == Some(r@),
{
    match uuid_parse_str(uuid.as_str()) {
        Ok(b) => b,
        Err(_) => {
            assert(false);
            [0u8; 16]
        },
    }
}

/// The canonical text of a UUID text: what `id` filters on.
pub open spec fn canonical_id(s: Seq<char>) -> Seq<char> {
    uuid_hyphenated(uuid_text_bytes(s).unwrap())
}

/// The `id` a lookup by path filters on: the path's UUID, rewritten in
/// its lowercase hyphenated form. The path must hold a UUID (the
/// handlers stop with "Invalid UUID" otherwise).
pub fn note_id_filter(id: String) -> (r: String)
    requires
        uuid_text_bytes(id@) is Some,
    ensures
        r@ == canonical_id(id@),
{
    let b = convert_uuid(id);
    uuid_to_string(&b)
}

/// The answer to a lookup by id: the note, 404 when there is none, 500
/// when the read failed.
pub fn get_note_by_id_reply(found: Result<Option<Note>, DbError>) -> (r: HttpReply)
    ensures
        found matches Ok(Some(n)) ==> is_json_reply(r, 200, Reply::Note(n)),
        found matches Ok(None) ==> is_empty_reply(r, 404),
        found is Err ==> is_empty_reply(r, 500),
{
    match found {
        Ok(Some(note)) => json_reply(200, Reply::Note(note)),
        Ok(None) => empty_reply(404),
        Err(_) => empty_reply(500),
    }
}

/// The collection the notes are read from, patched and deleted in.
pub fn notes_collection() -> (r: &'static str)
    ensures
        r@ == "Notes"@,
{
    "Notes"
}

/// The collection `post_new_note` inserts into.
pub fn new_notes_collection() -> (r: &'static str)
    ensures
        r@ == "notes"@,
{
    "notes"
}

/// A new note with the given id and times: title, content, tags and
/// categories from the request, empty attachment, version and export
/// lists.
pub open spec fn is_new_note(
    n: Note,
    info: CreateAndUpdateNote,
    id: Seq<char>,
    created_at: Seq<char>,
    updated_at: Seq<char>,
) -> bool {
    &&& n.id@ == id
    &&& n.title == info.title
    &&& n.content == info.content
    &&& n.created_at@ == created_at
    &&& n.updated_at@ == updated_at
    &&& n.tags == info.tags
    &&& n.categories == info.categories
    &&& n.attachments@.len() == 0
    &&& n.version_history@.len() == 0
    &&& n.export_options@.len() == 0
}

/// The note `post_new_note` stores, for a given id and times.
pub fn build_new_note(
    info: CreateAndUpdateNote,
    id: String,
    created_at: String,
    updated_at: String,
) -> (n: Note)
    ensures
        is_new_note(n, info, id@, created_at@, updated_at@),
        n.id@ == id@,
        n.title == info.title,
        n.content == info.content,
        n.tags == info.tags,
        n.categories == info.categories,
        n.created_at@ == created_at@,
        n.updated_at@ == updated_at@,
        n.attachments@.len() == 0,
        n.version_history@.len() == 0,
        n.export_options@.len() == 0,
{
    Note {
        id,
        title: info.title,
        content: info.content,
        created_at,
        updated_at,
        tags: info.tags,
        categories: info.categories,
        attachments: Vec::new(),
        version_history: Vec::new(),
        export_options: Vec::new(),
    }
}

/// The id of a new record: the text of a fresh version-4 UUID.
pub fn new_record_id() -> (r: String)
    ensures
        exists|b: Seq<u8>| is_v4_bytes(b) && r@ == uuid_hyphenated(b),
{
    let b = uuid_new_v4();
    uuid_to_string(&b)
}

/// The note `post_new_note` stores: a fresh version-4 UUID as id, and the
/// current time (read twice) as creation and update times.
pub fn post_new_note_record(info: CreateAndUpdateNote) -> (n: Note)
    ensures
        exists|b: Seq<u8>, t1: UtcInstant, t2: UtcInstant|
            is_v4_bytes(b) && instant_in_range(t1) && instant_in_range(t2) && is_new_note(
                n,
                info,
                uuid_hyphenated(b),
                rfc3339_text(t1.secs, t1.nanos),
                rfc3339_text(t2.secs, t2.nanos),
            ),
{
    let id = new_record_id();
    let created_at = now_rfc3339();
    let updated_at = now_rfc3339();
    build_new_note(info, id, created_at, updated_at)
}

/// The answer after inserting a new note: the note, or 500.
pub fn post_new_note_reply(note: Note, inserted: Result<(), DbError>) -> (r: HttpReply)
    ensures
        inserted is Ok ==> is_json_reply(r, 200, Reply::Note(note)),
        inserted is Err ==> is_empty_reply(r, 500),
{
    match inserted {
        Ok(_) => json_reply(200, Reply::Note(note)),
        Err(_) => empty_reply(500),
    }
}

/// A field of a patch: the new value when one is given, else the old one.
pub open spec fn patch_field<T>(old: Option<T>, new: Option<T>) -> Option<T> {
    if new is Some {
        new
    } else {
        old
    }
}

/// A note after a patch: title, content, tags and categories replaced by
/// those the patch gives, the update time set; nothing else changes.
pub open spec fn patched(n: Note, info: CreateAndUpdateNote, updated_at: String) -> Note {
    Note {
        id: n.id,
        title: patch_field(n.title, info.title),
        content: patch_field(n.content, info.content),
        created_at: n.created_at,
        updated_at: updated_at,
        tags: patch_field(n.tags, info.tags),
        categories: patch_field(n.categories, info.categories),
        attachments: n.attachments,
        version_history: n.version_history,
        export_options: n.export_options,
    }
}

/// Applies a patch to a note with a given update time.
pub fn apply_patch(note: Note, info: CreateAndUpdateNote, updated_at: String) -> (r: Note)
    ensures
        r == patched(note, info, updated_at),
{
    let mut note = note;
    if let Some(title) = info.title {
        note.title = Some(title);
    }
    if let Some(content) = info.content {
        note.content = Some(content);
    }
    if let Some(tags) = info.tags {
        note.tags = Some(tags);
    }
    if let Some(categories) = info.categories {
        note.categories = Some(categories);
    }
    note.updated_at = updated_at;
    note
}

/// What `patch_note_by_id` does after its lookup.
#[derive(Clone, Debug, PartialEq)]
pub enum PatchStep {
    /// Replace the note whose `id` is `filter_id` by `note`.
    Replace { filter_id: String, note: Note },
    /// Answer now.
    Done(HttpReply),
}

pub open spec fn patch_not_found_message() -> Seq<char> {
    "Oops! Note not found. Please check the ID provided."@
}

pub open spec fn patch_fetch_error_message() -> Seq<char> {
    "Oops! An error occurred while fetching the note. Please check the ID provided."@
}

/// The outcome of a patch's lookup, for a given update time: replace the
/// patched note under the canonical form of its stored id; or answer 200
/// with a message when there is no such note or the read failed. A note
/// that was found must have a UUID as id.
pub fn patch_note_step(
    found: Result<Option<Note>, DbError>,
    info: CreateAndUpdateNote,
    updated_at: String,
) -> (s: PatchStep)
    requires
        found matches Ok(Some(n)) ==> uuid_text_bytes(n.id@) is Some,
    ensures
        found matches Ok(Some(n)) ==> (s matches PatchStep::Replace { filter_id, note } && note
            == patched(n, info, updated_at) && filter_id@ == canonical_id(n.id@)),
        found matches Ok(None) ==> (s matches PatchStep::Done(r) && is_message_reply(
            r,
            200,
            patch_not_found_message(),
        )),
        found matches Err(e) ==> (s matches PatchStep::Done(r) && r.status == 200 && (
        r.body matches Body::Json(Reply::MessageAndError { message, error }) && message@
            == patch_fetch_error_message() && error == e.display)),
{
    match found {
        Ok(Some(note)) => {
            let id_text = note.id.clone();
            let filter_id = note_id_filter(id_text);
            let note = apply_patch(note, info, updated_at);
            PatchStep::Replace { filter_id, note }
        },
        Ok(None) => PatchStep::Done(
            message_reply(200, "Oops! Note not found. Please check the ID provided."),
        ),
        Err(e) => PatchStep::Done(
            HttpReply {
                status: 200,
                body: Body::Json(
                    Reply::MessageAndError {
                        message:
                            "Oops! An error occurred while fetching the note. Please check the ID provided.".to_string(),
                        error: e.display,
                    },
                ),
            },
        ),
    }
}

/// The outcome of a patch's lookup, with the current time as update time.
pub fn patch_note_after_find(found: Result<Option<Note>, DbError>, info: CreateAndUpdateNote) -> (s:
    PatchStep)
    requires
        found matches Ok(Some(n)) ==> uuid_text_bytes(n.id@) is Some,
    ensures
        exists|u: String, t: UtcInstant|
            instant_in_range(t) && u@ == rfc3339_text(t.secs, t.nanos) && {
                &&& found matches Ok(Some(n)) ==> (s matches PatchStep::Replace { filter_id, note }
                    && note == patched(n, info, u) && filter_id@ == canonical_id(n.id@))
                &&& found matches Ok(None) ==> (s matches PatchStep::Done(r) && is_message_reply(
                    r,
                    200,
                    patch_not_found_message(),
                ))
                &&& found matches Err(e) ==> (s matches PatchStep::Done(r) && r.status == 200 && (
                r.body matches Body::Json(Reply::MessageAndError { message, error }) && message@
                    == patch_fetch_error_message() && error == e.display))
            },
{
    let updated_at = now_rfc3339();
    let ghost u = updated_at;
    let s = patch_note_step(found, info, updated_at);
    s
}

/// The notes, in the collection's order, after `replace_one` with the
/// filter `{"id": id}`: the first note whose id is `id` becomes `note`;
/// with no such note nothing changes.
pub open spec fn replace_first_with_id(coll: Seq<Note>, id: Seq<char>, note: Note) -> Seq<Note>
    decreases coll.len(),
{
    if coll.len() == 0 {
        coll
    } else if coll[0].id@ == id {
        coll.update(0, note)
    } else {
        seq![coll[0]] + replace_first_with_id(coll.drop_first(), id, note)
    }
}

/// Position `i` holds the note a lookup by `{"id": id}` finds: the first
/// note whose id is `id`.
pub open spec fn is_first_with_id(coll: Seq<Note>, id: Seq<char>, i: int) -> bool {
    &&& 0 <= i < coll.len()
    &&& coll[i].id@ == id
    &&& forall|j: int| 0 <= j < i ==> coll[j].id@ != id
}

/// Replacing by id changes exactly the first note with that id.
pub proof fn lemma_replace_first_with_id(coll: Seq<Note>, id: Seq<char>, note: Note, i: int)
    requires
        is_first_with_id(coll, id, i),
    ensures
        replace_first_with_id(coll, id, note) == coll.update(i, note),
    decreases coll.len(),
{
    if i > 0 {
        let rest = coll.drop_first();
        assert(coll[0].id@ != id);
        assert forall|j: int| 0 <= j < i - 1 implies rest[j].id@ != id by {
            assert(rest[j] == coll[j + 1]);
        }
        lemma_replace_first_with_id(rest, id, note, i - 1);
        assert(replace_first_with_id(coll, id, note) =~= coll.update(i, note));
    }
}

/// The answer after replacing a patched note: 200 with the note, or 200
/// with the error when the write failed.
pub fn patch_note_reply(note: Note, replaced: Result<(), DbError>) -> (r: HttpReply)
    ensures
        r.status == 200,
        replaced is Ok ==> (r.body matches Body::Json(Reply::MessageAndNote { message, field, note: n })
            && message@ == "Note updated successfully!"@ && field@ == "note"@ && n == note),
        replaced matches Err(e) ==> (r.body matches Body::Json(Reply::MessageAndError { message, error })
            && message@ == "Oops! An error occurred while updating the note."@ && error
            == e.display),
{
    match replaced {
        Ok(_) => HttpReply {
            status: 200,
            body: Body::Json(
                Reply::MessageAndNote {
                    message: "Note updated successfully!".to_string(),
                    field: "note".to_string(),
                    note,
                },
            ),
        },
        Err(e) => HttpReply {
            status: 200,
            body: Body::Json(
                Reply::MessageAndError {
                    message: "Oops! An error occurred while updating the note.".to_string(),
                    error: e.display,
                },
            ),
        },
    }
}

/// The target of a delete by id: the canonical text of the path's UUID,
/// or 400 "Invalid UUID" when the path is not one.
pub fn delete_note_target(id: &str) -> (r: Result<String, HttpReply>)
    ensures
        uuid_text_bytes(id@) is Some ==> (r matches Ok(t) && t@ == canonical_id(id@)),
        uuid_text_bytes(id@) is None ==> (r matches Err(reply) && is_text_reply(
            reply,
            400,
            "Invalid UUID"@,
        )),
{
    match uuid_parse_str(id) {
        Ok(b) => Ok(uuid_to_string(&b)),
        Err(_) => Err(text_reply(400, "Invalid UUID")),
    }
}

/// The answer to a delete by id, with its three messages and the name of
/// the field that carries the deleted note.
pub fn delete_reply(
    deleted: Result<Option<Note>, DbError>,
    done: &str,
    field: &str,
    not_found: &str,
    failed: &str,
) -> (r: HttpReply)
    ensures
        r.status == 200,
        deleted matches Ok(Some(n)) ==> (r.body matches Body::Json(Reply::MessageAndNote { message, field: f, note })
            && message@ == done@ && f@ == field@ && note == n),
        deleted matches Ok(None) ==> is_message_reply(r, 200, not_found@),
        deleted is Err ==> is_message_reply(r, 200, failed@),
{
    match deleted {
        Ok(Some(note)) => HttpReply {
            status: 200,
            body: Body::Json(
                Reply::MessageAndNote {
                    message: done.to_string(),
                    field: field.to_string(),
                    note,
                },
            ),
        },
        Ok(None) => message_reply(200, not_found),
        Err(_) => message_reply(200, failed),
    }
}

/// The answer of `delete_note_by_id` after the delete.
pub fn delete_note_by_id_reply(deleted: Result<Option<Note>, DbError>) -> (r: HttpReply)
    ensures
        r.status == 200,
        deleted matches Ok(Some(n)) ==> (r.body matches Body::Json(Reply::MessageAndNote { message, field, note })
            && message@ == "Note deleted successfully!"@ && field@ == "note"@ && note == n),
        deleted matches Ok(None) ==> is_message_reply(
            r,
            200,
            "Oops! Note not found. Please check the ID provided."@,
        ),
        deleted is Err ==> is_message_reply(
            r,
            200,
            "Oops! An error occurred while deleting the note. Please check the ID provided."@,
        ),
{
    delete_reply(
        deleted,
        "Note deleted successfully!",
        "note",
        "Oops! Note not found. Please check the ID provided.",
        "Oops! An error occurred while deleting the note. Please check the ID provided.",
    )
}

/// The answer to a delete of all notes: 200 with the count rendered in
/// decimal before `suffix`, or 500 with `failed`.
pub fn delete_all_reply(deleted: Result<u64, DbError>, suffix: &str, failed: &str) -> (r:
    HttpReply)
    ensures
        deleted matches Ok(c) ==> is_message_reply(r, 200, decimal(c as nat) + suffix@),
        deleted is Err ==> is_message_reply(r, 500, failed@),
{
    match deleted {
        Ok(count) => {
            let mut m = String::new();
            push_decimal(&mut m, count);
            let mut m2 = m;
            m2.append(suffix);
            assert(m2@ =~= decimal(count as nat) + suffix@);
            HttpReply { status: 200, body: Body::Json(Reply::Message(m2)) }
        },
        Err(_) => message_reply(500, failed),
    }
}

/// The answer of `delete_all_notes`: how many notes were deleted, or 500.
pub fn delete_all_notes_reply(deleted: Result<u64, DbError>) -> (r: HttpReply)
    ensures
        deleted matches Ok(c) ==> is_message_reply(
            r,
            200,
            decimal(c as nat) + " notes were deleted successfully."@,
        ),
        deleted is Err ==> is_message_reply(
            r,
            500,
            "Oops! An error occurred while trying to delete all notes."@,
        ),
{
    delete_all_reply(
        deleted,
        " notes were deleted successfully.",
        "Oops! An error occurred while trying to delete all notes.",
    )
}

} // verus!
