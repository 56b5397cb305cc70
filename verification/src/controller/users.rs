//! The decisions of `register`, `login` and `logout`, around their
//! database calls on the `users` collection.
use vstd::prelude::*;
use crate::clock::{instant_in_range, instant_rfc3339, max_timestamp, rfc3339_text, UtcInstant};
use crate::controller::notes::new_record_id;
use crate::middleware::jwt::session_secret;
use crate::models::users::{LogoutRequest, User};
use crate::reply::{empty_reply, is_empty_reply, is_json_reply, json_reply, DbError, HttpReply, Reply};
use crate::token::{
    claim_names, claims_json, jwt_encode_hs256, jwt_hs256_encoding, jwt_hs256_payload,
    number_claims_view, text_claims_view,
};
use crate::uuid_text::{is_v4_bytes, uuid_hyphenated};

verus! {

/// The account `register` stores for a body and an id: the body's email
/// and password, no token.
pub fn new_user(body: User, id: String) -> (u: User)
    ensures
        u.id == Some(id),
        u.email == body.email,
        u.password == body.password,
        u.token is None,
{
    User { id: Some(id), email: body.email, password: body.password, token: None }
}

/// The account `register` stores: a fresh version-4 UUID as id.
pub fn register_record(body: User) -> (u: User)
    ensures
        exists|b: Seq<u8>| is_v4_bytes(b) && (u.id matches Some(i) && i@ == uuid_hyphenated(b)),
        u.email == body.email,
        u.password == body.password,
        u.token is None,
{
    let id = new_record_id();
    new_user(body, id)
}

/// The collection the accounts are kept in.
pub fn users_collection() -> (r: &'static str)
    ensures
        r@ == "users"@,
{
    "users"
}

/// A write to the accounts: on the account whose `email` matches, set
/// `token` to the given value (`None` stores null).
#[derive(Clone, Debug, PartialEq)]
pub struct TokenUpdate {
    pub email: String,
    pub token: Option<String>,
}

/// An account after a token write: the token replaced when the email
/// matches, the account unchanged otherwise.
pub open spec fn updated_account(u: User, w: TokenUpdate) -> User {
    if u.email@ == w.email@ {
        User { token: w.token, ..u }
    } else {
        u
    }
}

/// The email `login` looks the account up by: the request's.
pub fn login_lookup_email(body: &User) -> (e: String)
    ensures
        e@ == body.email@,
{
    body.email.clone()
}

/// The write that stores a freshly issued token on the account it was
/// issued to.
pub fn login_token_update(user: &User, token: String) -> (w: TokenUpdate)
    ensures
        w.email@ == user.email@,
        w.token == Some(token),
{
    TokenUpdate { email: user.email.clone(), token: Some(token) }
}

/// The write `logout` makes: clear the token of the account with the
/// request's email.
pub fn logout_token_update(body: &LogoutRequest) -> (w: TokenUpdate)
    ensures
        w.email@ == body.email@,
        w.token is None,
{
    TokenUpdate { email: body.email.clone(), token: None }
}

/// The email `logout` reads the account back by: the request's.
pub fn logout_lookup_email(body: &LogoutRequest) -> (e: String)
    ensures
        e@ == body.email@,
{
    body.email.clone()
}

/// The answer after inserting an account: the account, or 500.
pub fn register_reply(user: User, inserted: Result<(), DbError>) -> (r: HttpReply)
    ensures
        inserted is Ok ==> is_json_reply(r, 200, Reply::User(user)),
        inserted is Err ==> is_empty_reply(r, 500),
{
    match inserted {
        Ok(_) => json_reply(200, Reply::User(user)),
        Err(_) => empty_reply(500),
    }
}

/// What `login` does after looking the email up.
#[derive(Clone, Debug, PartialEq)]
pub enum LoginStep {
    /// Issue a session token to this account.
    Issue(User),
    /// Answer now.
    Done(HttpReply),
}

/// The outcome of the lookup: issue a token when the account exists and
/// the password matches; 401 on a wrong password, 404 without an account,
/// 500 when the read failed.
pub fn login_after_find(body: &User, found: Result<Option<User>, DbError>) -> (s: LoginStep)
    ensures
        found matches Ok(Some(u)) ==> if u.password@ == body.password@ {
            s == LoginStep::Issue(u)
        } else {
            s matches LoginStep::Done(r) && is_empty_reply(r, 401)
        },
        found matches Ok(None) ==> (s matches LoginStep::Done(r) && is_empty_reply(r, 404)),
        found is Err ==> (s matches LoginStep::Done(r) && is_empty_reply(r, 500)),
{
    match found {
        Ok(Some(user)) => {
            if user.password == body.password {
                LoginStep::Issue(user)
            } else {
                LoginStep::Done(empty_reply(401))
            }
        },
        Ok(None) => LoginStep::Done(empty_reply(404)),
        Err(_) => LoginStep::Done(empty_reply(500)),
    }
}

/// The string claims of a session token: `email`, `id`, `date`.
pub open spec fn login_text_claims(email: Seq<char>, id: Seq<char>, date: Seq<char>) -> Seq<
    (Seq<char>, Seq<char>),
> {
    seq![("email"@, email), ("id"@, id), ("date"@, date)]
}

/// The integer claim of a session token: `exp`.
pub open spec fn login_number_claims(exp: i64) -> Seq<(Seq<char>, i64)> {
    seq![("exp"@, exp)]
}

/// Session tokens expire 24 hours after they are issued.
pub open spec fn session_expiry(issued: UtcInstant) -> int {
    issued.secs + 86_400
}

/// The claims a session token carries, `(email, id, date, exp)`, as they
/// read back when decoded.
pub open spec fn login_claims(email: Seq<char>, id: Seq<char>, issued: UtcInstant) -> (
    Seq<char>,
    Seq<char>,
    Seq<char>,
    u64,
) {
    (email, id, rfc3339_text(issued.secs, issued.nanos), session_expiry(issued) as u64)
}

/// The claims of a session token as the JSON text they read back as:
/// `{"email":..,"id":..,"date":..,"exp":..}`.
pub open spec fn session_claims_text(email: Seq<char>, id: Seq<char>, issued: UtcInstant) -> Seq<
    char,
> {
    claims_json(
        login_text_claims(email, id, rfc3339_text(issued.secs, issued.nanos)),
        login_number_claims(session_expiry(issued) as i64),
    )
}

/// Whether `now` plus 24 hours is still an instant `chrono` represents
/// (`login` stops otherwise).
pub fn session_expiry_fits(now: &UtcInstant) -> (r: bool)
    requires
        instant_in_range(*now),
    ensures
        r == (session_expiry(*now) <= max_timestamp()),
{
    now.secs <= 8_210_266_876_799 - 86_400
}

/// The session token `login` issues to an account at instant `now`: the
/// account's email and id, `now` in RFC 3339 as `date`, and `now` plus 24
/// hours as `exp`, signed with `JWT_SECRET`. The account has an id, and
/// `now` plus 24 hours is an instant `chrono` represents.
pub fn login_token(user: &User, now: UtcInstant) -> (t: String)
    requires
        user.id is Some,
        instant_in_range(now),
        session_expiry(now) <= max_timestamp(),
    ensures
        t@ == jwt_hs256_encoding(
            login_text_claims(
                user.email@,
                user.id.unwrap()@,
                rfc3339_text(now.secs, now.nanos),
            ),
            login_number_claims(session_expiry(now) as i64),
            session_secret(),
        ),
        jwt_hs256_payload(t@, session_secret()) == Some(
            session_claims_text(user.email@, user.id.unwrap()@, now),
        ),
        jwt_hs256_payload(t@, session_secret()) == Some(
            claims_json(
                seq![
                    ("email"@, user.email@),
                    ("id"@, user.id.unwrap()@),
                    ("date"@, rfc3339_text(now.secs, now.nanos)),
                ],
                seq![("exp"@, (now.secs + 86400) as i64)],
            ),
        ),
        t@ == jwt_hs256_encoding(
            seq![
                ("email"@, user.email@),
                ("id"@, user.id.unwrap()@),
                ("date"@, rfc3339_text(now.secs, now.nanos)),
            ],
            seq![("exp"@, (now.secs + 86400) as i64)],
            session_secret(),
        ),
{
    let id = match &user.id {
        Some(i) => i.clone(),
        None => {
            assert(false);
            String::new()
        },
    };
    let date = instant_rfc3339(&now);
    let exp: i64 = now.secs + 86_400;
    let mut text: Vec<(String, String)> = Vec::new();
    let k1 = "email".to_string();
    let k2 = "id".to_string();
    let k3 = "date".to_string();
    let k4 = "exp".to_string();
    text.push((k1, user.email.clone()));
    text.push((k2, id));
    text.push((k3, date));
    let mut numbers: Vec<(String, i64)> = Vec::new();
    numbers.push((k4, exp));
    assert(text_claims_view(text@) =~= login_text_claims(
        user.email@,
        user.id.unwrap()@,
        rfc3339_text(now.secs, now.nanos),
    ));
    assert(number_claims_view(numbers@) =~= login_number_claims(exp));
    proof {
        reveal_strlit("email");
        reveal_strlit("id");
        reveal_strlit("date");
        reveal_strlit("exp");
        let names = claim_names(text_claims_view(text@), number_claims_view(numbers@));
        assert(names =~= seq!["email"@, "id"@, "date"@, "exp"@]);
        assert(names.no_duplicates()) by {
            assert forall|i: int, j: int| 0 <= i < names.len() && 0 <= j < names.len() && i != j
                implies names[i] != names[j] by {
                assert(names[i].len() != names[j].len());
            }
        }
    }
    match jwt_encode_hs256(&text, &numbers, "JWT_SECRET") {
        Ok(token) => token,
        Err(_) => {
            assert(false);
            String::new()
        },
    }
}

/// The answer after storing the token: the account with its new token,
/// or 500 when the write failed.
pub fn login_reply(user: User, token: String, updated: Result<(), DbError>) -> (r: HttpReply)
    ensures
        updated is Ok ==> is_json_reply(
            r,
            200,
            Reply::User((User { token: Some(token), ..user })),
        ),
        updated is Err ==> is_empty_reply(r, 500),
{
    match updated {
        Ok(_) => {
            let mut user = user;
            user.token = Some(token);
            json_reply(200, Reply::User(user))
        },
        Err(_) => empty_reply(500),
    }
}

/// What `logout` does after clearing the token: fetch the account again
/// (`None`), or answer 500 when the write failed.
pub fn logout_after_update(updated: Result<(), DbError>) -> (r: Option<HttpReply>)
    ensures
        updated is Ok ==> r is None,
        updated is Err ==> (r matches Some(reply) && is_empty_reply(reply, 500)),
{
    match updated {
        Ok(_) => None,
        Err(_) => Some(empty_reply(500)),
    }
}

/// The answer of `logout`: the account as read back.
pub fn logout_reply(user: User) -> (r: HttpReply)
    ensures
        is_json_reply(r, 200, Reply::User(user)),
{
    json_reply(200, Reply::User(user))
}

} // verus!
