//! Properties that relate several operations of the service.
use vstd::prelude::*;
use crate::clock::UtcInstant;
use crate::controller::notes::{
    as_unsigned, canonical_id, filter_clauses, is_first_with_id, is_new_note,
    lemma_replace_first_with_id, ok_notes, patched, replace_first_with_id, NoteFilter,
    PaginationParams,
};
use crate::controllers::is_created_note;
use crate::controller::users::{
    login_claims, session_claims_text, session_expiry, updated_account, TokenUpdate,
};
use crate::middleware::jwt::{decoded_claims, first_step, holds_token, session_secret, Claims};
use crate::clock::rfc3339_text;
use crate::token::{claims_json, jwt_hs256_payload};
use crate::models::users::User;
use crate::models::{CreateAndUpdateNote, Note, UpdateNote};
use crate::reply::DbError;
use crate::text::replace_all;
use crate::uuid_text::{is_v4_bytes, lemma_uuid_text_round_trip, uuid_hyphenated, uuid_text_bytes};

verus! {

/// A patch that gives no field changes nothing but the update time.
pub proof fn law_empty_patch_only_touches_update_time(n: Note, info: CreateAndUpdateNote, u: String)
    requires
        info.title is None,
        info.content is None,
        info.tags is None,
        info.categories is None,
    ensures
        patched(n, info, u) == (Note { updated_at: u, ..n }),
{
}

/// Applying the same patch twice, at the same time, is applying it once.
pub proof fn law_patch_idempotent(n: Note, info: CreateAndUpdateNote, u: String)
    ensures
        patched(patched(n, info, u), info, u) == patched(n, info, u),
{
}

/// A patch sets the fields it gives, keeps the ones it does not, and
/// never changes a note's id, creation time, attachments, versions or
/// export options.
pub proof fn law_patch_fields(n: Note, info: CreateAndUpdateNote, u: String)
    ensures
        info.title is Some ==> patched(n, info, u).title == info.title,
        info.title is None ==> patched(n, info, u).title == n.title,
        info.content is Some ==> patched(n, info, u).content == info.content,
        info.content is None ==> patched(n, info, u).content == n.content,
        info.tags is Some ==> patched(n, info, u).tags == info.tags,
        info.tags is None ==> patched(n, info, u).tags == n.tags,
        info.categories is Some ==> patched(n, info, u).categories == info.categories,
        info.categories is None ==> patched(n, info, u).categories == n.categories,
        patched(n, info, u).id == n.id,
        patched(n, info, u).created_at == n.created_at,
        patched(n, info, u).updated_at == u,
        patched(n, info, u).attachments == n.attachments,
        patched(n, info, u).version_history == n.version_history,
        patched(n, info, u).export_options == n.export_options,
{
}

/// A patch replaces the note its lookup by path found, and only that note:
/// the write the patch asks for (the patched note, filtered on the
/// canonical form of the found note's id) leaves the collection's length
/// and every other note as they were, and puts the patched note, under the
/// same id, where the found note stood.
pub proof fn law_patch_replaces_only_the_found_note(
    coll: Seq<Note>,
    path: Seq<char>,
    i: int,
    info: CreateAndUpdateNote,
    u: String,
)
    requires
        uuid_text_bytes(path) is Some,
        is_first_with_id(coll, canonical_id(path), i),
    ensures
        ({
            let after = replace_first_with_id(
                coll,
                canonical_id(coll[i].id@),
                patched(coll[i], info, u),
            );
            &&& after.len() == coll.len()
            &&& after[i] == patched(coll[i], info, u)
            &&& after[i].id == coll[i].id
            &&& forall|j: int| 0 <= j < coll.len() && j != i ==> after[j] == coll[j]
        }),
{
    law_canonical_id_idempotent(path);
    lemma_replace_first_with_id(coll, canonical_id(path), patched(coll[i], info, u), i);
}

/// `Uuid::parse_str` reads back the bytes `Uuid::to_string` wrote.
pub proof fn law_uuid_text_round_trip(b: Seq<u8>)
    requires
        b.len() == 16,
    ensures
        uuid_text_bytes(uuid_hyphenated(b)) == Some(b),
{
    lemma_uuid_text_round_trip(b);
}

/// Rewriting an id in its canonical form keeps the UUID it denotes, and
/// rewriting again changes nothing.
pub proof fn law_canonical_id_idempotent(s: Seq<char>)
    requires
        uuid_text_bytes(s) is Some,
    ensures
        uuid_text_bytes(canonical_id(s)) == uuid_text_bytes(s),
        canonical_id(canonical_id(s)) == canonical_id(s),
{
    let b = uuid_text_bytes(s).unwrap();
    assert(b.len() == 16);
    lemma_uuid_text_round_trip(b);
}

/// The id given to a new note or account is a UUID text already in
/// canonical form, so a later patch of that note finds a valid id.
pub proof fn law_new_ids_are_canonical(b: Seq<u8>)
    requires
        is_v4_bytes(b),
    ensures
        uuid_text_bytes(uuid_hyphenated(b)) == Some(b),
        canonical_id(uuid_hyphenated(b)) == uuid_hyphenated(b),
{
    lemma_uuid_text_round_trip(b);
}

/// A listing keeps every note that was read: with no failed read, it is
/// the notes in the order they came.
pub proof fn law_listing_keeps_every_read(rs: Seq<Result<Note, DbError>>)
    requires
        forall|i: int| 0 <= i < rs.len() ==> (#[trigger] rs[i]) is Ok,
    ensures
        ok_notes(rs) == rs.map_values(|r: Result<Note, DbError>| r->Ok_0),
    decreases rs.len(),
{
    if rs.len() > 0 {
        law_listing_keeps_every_read(rs.drop_last());
        assert(rs.last() is Ok);
        assert(rs.map_values(|r: Result<Note, DbError>| r->Ok_0) =~= rs.drop_last().map_values(
            |r: Result<Note, DbError>| r->Ok_0,
        ).push(rs.last()->Ok_0));
    } else {
        assert(rs.map_values(|r: Result<Note, DbError>| r->Ok_0) =~= Seq::<Note>::empty());
    }
}

/// A listing never returns more notes than were read.
pub proof fn law_listing_not_longer(rs: Seq<Result<Note, DbError>>)
    ensures
        ok_notes(rs).len() <= rs.len(),
    decreases rs.len(),
{
    if rs.len() > 0 {
        law_listing_not_longer(rs.drop_last());
    }
}

/// The first page (asked for or by default) skips nothing.
pub proof fn law_first_page_skips_nothing(p: PaginationParams)
    requires
        p.page is None || p.page == Some(1i64),
    ensures
        p.skip_count() == 0,
{
    assert(p.page_number() == 1);
    assert(0 * p.page_length() == 0);
}

/// The claims a session token is issued with name its account: until it
/// expires, the first validation step for those claims looks up exactly
/// that email and id; from its expiry on, the step refuses them.
pub proof fn law_login_token_names_its_user(
    email: Seq<char>,
    id: Seq<char>,
    issued: UtcInstant,
    now: u64,
)
    requires
        0 <= issued.secs,
        session_expiry(issued) <= i64::MAX,
    ensures
        now < session_expiry(issued) ==> first_step(Some(login_claims(email, id, issued)), now)
            == Some((id, email)),
        now >= session_expiry(issued) ==> first_step(Some(login_claims(email, id, issued)), now)
            is None,
{
}

/// A session token that login issued at `issued` and stored on the
/// account validates until it expires: decoding it with `JWT_SECRET`, when
/// that succeeds, gives back the claims text login signed; before `exp`
/// those claims name the account by id and email; and the account's stored
/// token is the one presented.
pub proof fn law_login_token_validates(
    email: Seq<char>,
    id: Seq<char>,
    issued: UtcInstant,
    token: Seq<char>,
    decoded: Seq<char>,
    now: u64,
    account: User,
)
    requires
        0 <= issued.secs,
        session_expiry(issued) <= i64::MAX,
        jwt_hs256_payload(token, session_secret()) == Some(session_claims_text(email, id, issued)),
        jwt_hs256_payload(token, session_secret()) == Some(decoded),
        account.token matches Some(t) && t@ == token,
    ensures
        decoded == session_claims_text(email, id, issued),
        now < session_expiry(issued) ==> first_step(Some(login_claims(email, id, issued)), now)
            == Some((id, email)),
        holds_token(Ok(Some(account)), token),
{
}

/// After login stores a token on an account, validating that token
/// against the stored account succeeds.
pub proof fn law_login_record_holds_token(u: User, t: String)
    ensures
        holds_token(Ok(Some((User { token: Some(t), ..u }))), t@),
{
}

/// After logout clears an account's token, no token validates against it.
pub proof fn law_logged_out_account_refuses(u: User, token: Seq<char>)
    requires
        u.token is None,
    ensures
        !holds_token(Ok(Some(u)), token),
{
}

/// After login's write, the account it names holds the issued token, so
/// that token validates against it.
pub proof fn law_login_write_holds_token(u: User, w: TokenUpdate, t: String)
    requires
        w.email@ == u.email@,
        w.token == Some(t),
    ensures
        updated_account(u, w).token == Some(t),
        holds_token(Ok(Some(updated_account(u, w))), t@),
{
}

/// After logout's write, the account it names holds no token, so no token
/// validates against it until the next login.
pub proof fn law_logout_write_refuses(u: User, w: TokenUpdate, token: Seq<char>)
    requires
        w.email@ == u.email@,
        w.token is None,
    ensures
        updated_account(u, w).token is None,
        !holds_token(Ok(Some(updated_account(u, w))), token),
{
}

/// A token write leaves every other account as it was.
pub proof fn law_token_write_touches_one_account(u: User, w: TokenUpdate)
    requires
        w.email@ != u.email@,
    ensures
        updated_account(u, w) == u,
{
}

/// Consecutive pages of one page size take consecutive windows: page
/// `p + 1` skips exactly the notes that page `p` skips and returns (for
/// windows that do not wrap, as unsigned skips too).
pub proof fn law_pages_are_consecutive(a: PaginationParams, b: PaginationParams, p: i64)
    requires
        a.page == Some(p),
        b.page == Some((p + 1) as i64),
        p < i64::MAX,
        a.page_size == b.page_size,
    ensures
        b.skip_count() == a.skip_count() + a.page_length(),
        a.skip_count() >= 0 && a.page_length() >= 0 ==> as_unsigned(b.skip_count())
            == as_unsigned(a.skip_count()) + a.page_length(),
{
    let s = a.page_length();
    assert(b.page_length() == s);
    assert(b.page_number() - 1 == p);
    assert(a.page_number() - 1 == p - 1);
    assert(p * s == (p - 1) * s + s) by (nonlinear_arith);
}

/// Only the token stored on the account validates: any other is refused.
pub proof fn law_only_stored_token_validates(u: User, stored: String, token: Seq<char>)
    requires
        u.token == Some(stored),
        stored@ != token,
    ensures
        !holds_token(Ok(Some(u)), token),
{
}

/// A header that does not contain "Bearer " is taken as the token itself.
pub proof fn law_bare_token_unchanged(h: Seq<char>, pat: Seq<char>)
    requires
        pat.len() > 0,
        forall|i: int| 0 <= i <= h.len() - pat.len() ==> #[trigger] h.subrange(i, i + pat.len()) != pat,
    ensures
        replace_all(h, pat, Seq::empty()) == h,
    decreases h.len(),
{
    if h.len() > 0 {
        if pat.len() <= h.len() {
            let i: int = 0;
            assert(h.subrange(i, i + pat.len()) != pat);
            assert(h.take(pat.len() as int) =~= h.subrange(i, i + pat.len()));
        }
        let t = h.skip(1);
        assert forall|i: int| 0 <= i <= t.len() - pat.len() implies #[trigger] t.subrange(
            i,
            i + pat.len(),
        ) != pat by {
            assert(t.subrange(i, i + pat.len()) =~= h.subrange(i + 1, i + 1 + pat.len()));
        }
        law_bare_token_unchanged(t, pat);
        assert(!(0 < pat.len() <= h.len() && h.take(pat.len() as int) == pat));
        assert(replace_all(h, pat, Seq::empty()) == seq![h[0]] + replace_all(t, pat, Seq::empty()));
        assert(seq![h[0]] + t =~= h);
    }
}

/// Before its expiry, a decoded session token is looked up by exactly the
/// id and email it carries, letter for letter; at or after its expiry, or
/// when it did not decode, it is refused without a lookup.
pub proof fn law_session_lookup_uses_the_claims(c: Claims, e: String, now: u64)
    ensures
        now < c.exp ==> first_step(decoded_claims(Ok(c)), now) == Some((c.id@, c.email@)),
        now >= c.exp ==> first_step(decoded_claims(Ok(c)), now) is None,
        first_step(decoded_claims(Err(e)), now) is None,
{
}

/// The claims login signs and the claims validation reads are the same:
/// the account's email and id unchanged, the issue time in RFC 3339 as
/// `date`, and the issue time plus 24 hours as `exp`; the signed text is
/// the JSON object of exactly these four members, in this order.
pub proof fn law_session_claims_are_the_account(email: Seq<char>, id: Seq<char>, issued: UtcInstant)
    requires
        0 <= issued.secs,
        issued.secs + 86400 <= i64::MAX,
    ensures
        session_claims_text(email, id, issued) == claims_json(
            seq![
                ("email"@, email),
                ("id"@, id),
                ("date"@, rfc3339_text(issued.secs, issued.nanos)),
            ],
            seq![("exp"@, (issued.secs + 86400) as i64)],
        ),
        login_claims(email, id, issued).0 == email,
        login_claims(email, id, issued).1 == id,
        login_claims(email, id, issued).2 == rfc3339_text(issued.secs, issued.nanos),
        login_claims(email, id, issued).3 == issued.secs + 86400,
{
    assert(session_claims_text(email, id, issued) =~= claims_json(
        seq![
            ("email"@, email),
            ("id"@, id),
            ("date"@, rfc3339_text(issued.secs, issued.nanos)),
        ],
        seq![("exp"@, (issued.secs + 86400) as i64)],
    ));
}

/// A listing's filter holds one condition per query field that is given,
/// each independently of the others: `tags` equal to the tag,
/// `categories` equal to the category, `created_at` at or after
/// (`$gte`) the date, and nothing else.
pub proof fn law_filter_fields_are_independent(f: NoteFilter, v: Seq<char>)
    ensures
        filter_clauses(f).contains(("tags"@, None::<Seq<char>>, v)) <==> (f.tag matches Some(t)
            && t@ == v),
        filter_clauses(f).contains(("categories"@, None::<Seq<char>>, v)) <==> (
        f.category matches Some(c) && c@ == v),
        filter_clauses(f).contains(("created_at"@, Some("$gte"@), v)) <==> (
        f.created_after matches Some(d) && d@ == v),
        filter_clauses(f).len() == (if f.tag is Some {
            1int
        } else {
            0
        }) + (if f.category is Some {
            1int
        } else {
            0
        }) + (if f.created_after is Some {
            1int
        } else {
            0
        }),
{
    reveal_strlit("tags");
    reveal_strlit("categories");
    reveal_strlit("created_at");
    assert("tags"@ != "categories"@) by {
        assert("tags"@.len() != "categories"@.len());
    }
    assert("tags"@ != "created_at"@) by {
        assert("tags"@.len() != "created_at"@.len());
    }
    assert("categories"@ != "created_at"@) by {
        assert("categories"@[1] != "created_at"@[1]);
    }
    let s = filter_clauses(f);
    let tag: Seq<(Seq<char>, Option<Seq<char>>, Seq<char>)> = match f.tag {
        Some(t) => seq![("tags"@, None, t@)],
        None => Seq::empty(),
    };
    let category: Seq<(Seq<char>, Option<Seq<char>>, Seq<char>)> = match f.category {
        Some(c) => seq![("categories"@, None, c@)],
        None => Seq::empty(),
    };
    let created: Seq<(Seq<char>, Option<Seq<char>>, Seq<char>)> = match f.created_after {
        Some(d) => seq![("created_at"@, Some("$gte"@), d@)],
        None => Seq::empty(),
    };
    assert(s =~= tag + category + created);
    assert forall|x: (Seq<char>, Option<Seq<char>>, Seq<char>)| s.contains(x) <==> (
    tag.contains(x) || category.contains(x) || created.contains(x)) by {
        if s.contains(x) {
            let i = choose|i: int| 0 <= i < s.len() && s[i] == x;
            if i < tag.len() {
                assert(tag[i] == x);
            } else if i < tag.len() + category.len() {
                assert(category[i - tag.len()] == x);
            } else {
                assert(created[i - tag.len() - category.len()] == x);
            }
        }
        if tag.contains(x) {
            let i = choose|i: int| 0 <= i < tag.len() && tag[i] == x;
            assert(s[i] == x);
        }
        if category.contains(x) {
            let i = choose|i: int| 0 <= i < category.len() && category[i] == x;
            assert(s[tag.len() + i] == x);
        }
        if created.contains(x) {
            let i = choose|i: int| 0 <= i < created.len() && created[i] == x;
            assert(s[tag.len() + category.len() + i] == x);
        }
    }
    if let Some(t) = f.tag {
        assert(tag[0] == ("tags"@, None::<Seq<char>>, t@));
    }
    if let Some(c) = f.category {
        assert(category[0] == ("categories"@, None::<Seq<char>>, c@));
    }
    if let Some(d) = f.created_after {
        assert(created[0] == ("created_at"@, Some("$gte"@), d@));
    }
}

/// A note made by `post_new_note` keeps every field the request gives:
/// title, content, tags and categories as sent, each independently of the
/// others, with the given id and times and nothing attached yet.
pub proof fn law_new_note_keeps_the_request(
    n: Note,
    info: CreateAndUpdateNote,
    id: Seq<char>,
    created_at: Seq<char>,
    updated_at: Seq<char>,
)
    requires
        is_new_note(n, info, id, created_at, updated_at),
    ensures
        n.title == info.title,
        n.content == info.content,
        n.tags == info.tags,
        n.categories == info.categories,
        n.id@ == id,
        n.created_at@ == created_at,
        n.updated_at@ == updated_at,
        n.attachments@.len() == 0,
        n.version_history@.len() == 0,
        n.export_options@.len() == 0,
{
}

/// A note made by `create_note` keeps the request's title and content,
/// each independently of the other fields, and has the request's tags and
/// categories, or empty lists where the request gives none.
pub proof fn law_created_note_keeps_the_request(
    n: Note,
    info: UpdateNote,
    id: Seq<char>,
    created_at: Seq<char>,
    updated_at: Seq<char>,
)
    requires
        is_created_note(n, info, id, created_at, updated_at),
    ensures
        n.title == info.title,
        n.content == info.content,
        info.tags matches Some(g) ==> (n.tags matches Some(t) && t@ == g@),
        info.tags is None ==> (n.tags matches Some(t) && t@.len() == 0),
        info.categories matches Some(g) ==> (n.categories matches Some(c) && c@ == g@),
        info.categories is None ==> (n.categories matches Some(c) && c@.len() == 0),
        n.id@ == id,
        n.created_at@ == created_at,
        n.updated_at@ == updated_at,
{
}

} // verus!
