//! Session-token validation against the `users` collection, with the
//! `JWT_SECRET` key that `login` signs with. Validation runs in two steps
//! around a database lookup.
use vstd::prelude::*;
use crate::models::users::User;
use crate::reply::DbError;
use crate::token::{jwt_decode_hs256, jwt_hs256_payload};

verus! {

/// The claims of a session token, as decoding a token gives them.
#[derive(Clone, Debug, PartialEq)]
pub struct Claims {
    pub email: String,
    pub id: String,
    pub date: String,
    pub exp: u64,
}

/// The user a session token names: the lookup filters on both.
#[derive(Clone, Debug, PartialEq)]
pub struct UserQuery {
    pub id: String,
    pub email: String,
}

/// The key session tokens are signed with.
pub open spec fn session_secret() -> Seq<char> {
    "JWT_SECRET"@
}

/// The first part of `validate_token`: decode `token` with the key
/// `JWT_SECRET`, checking its HS256 signature, into the claims as JSON
/// text, or the decoding error's `Debug` text. A success carries the
/// token's verified payload; a token whose signature does not verify under
/// `JWT_SECRET` is refused. (The decoding also reads the clock; see
/// `jwt_decode_hs256`.)
pub fn validate_token_decode(token: &str) -> (r: Result<String, String>)
    ensures
        r matches Ok(p) ==> jwt_hs256_payload(token@, session_secret()) == Some(p@),
        jwt_hs256_payload(token@, session_secret()) is None ==> r is Err,
{
    jwt_decode_hs256(token, "JWT_SECRET")
}

impl Claims {
    pub open spec fn view_tuple(self) -> (Seq<char>, Seq<char>, Seq<char>, u64) {
        (self.email@, self.id@, self.date@, self.exp)
    }
}

/// The claims, `(email, id, date, exp)`, when decoding the token into
/// `Claims` succeeded.
pub open spec fn decoded_claims(decoded: Result<Claims, String>) -> Option<
    (Seq<char>, Seq<char>, Seq<char>, u64),
> {
    match decoded {
        Ok(c) => Some(c.view_tuple()),
        Err(_) => None,
    }
}

/// What the first step decides at time `now` (seconds since the epoch):
/// look up the user a decoded token names, by id and email, when `now` is
/// before its `exp`; refuse it otherwise.
pub open spec fn first_step(c: Option<(Seq<char>, Seq<char>, Seq<char>, u64)>, now: u64) -> Option<
    (Seq<char>, Seq<char>),
> {
    match c {
        Some((email, id, _date, exp)) => if now < exp {
            Some((id, email))
        } else {
            None
        },
        None => None,
    }
}

/// The step of `validate_token` after decoding, for the claims read from
/// the text `validate_token_decode` gave (or why there are none): refuse
/// the token (`Err(false)`) when it did not decode or `now` is at or past
/// `exp`, else look up the user it names.
pub fn validate_token_begin(decoded: Result<Claims, String>, now: u64) -> (r: Result<
    UserQuery,
    bool,
>)
    ensures
        r is Err ==> r == Err::<UserQuery, bool>(false),
        decoded is Err ==> r == Err::<UserQuery, bool>(false),
        decoded matches Ok(c) ==> (now < c.exp ==> (r matches Ok(q) && q.id@ == c.id@ && q.email@
            == c.email@)),
        decoded matches Ok(c) ==> (now >= c.exp ==> r == Err::<UserQuery, bool>(false)),
        match first_step(decoded_claims(decoded), now) {
            Some((id, email)) => r matches Ok(q) && q.id@ == id && q.email@ == email,
            None => r is Err,
        },
{
    match decoded {
        Ok(claims) => {
            if now >= claims.exp {
                Err(false)
            } else {
                Ok(UserQuery { id: claims.id, email: claims.email })
            }
        },
        Err(_) => Err(false),
    }
}

/// Whether a lookup found a user whose stored token is `token`.
pub open spec fn holds_token(found: Result<Option<User>, DbError>, token: Seq<char>) -> bool {
    found matches Ok(Some(u)) && (u.token matches Some(t) && t@ == token)
}

/// The second step of `validate_token`: `Ok(true)` when the user found
/// holds exactly this token, `Err(false)` otherwise.
pub fn validate_token_finish(token: &str, found: Result<Option<User>, DbError>) -> (r: Result<
    bool,
    bool,
>)
    ensures
        holds_token(found, token@) ==> r == Ok::<bool, bool>(true),
        !holds_token(found, token@) ==> r == Err::<bool, bool>(false),
{
    let presented = token.to_string();
    match found {
        Ok(Some(user)) => match user.token {
            Some(stored) => {
                if stored == presented {
                    Ok(true)
                } else {
                    Err(false)
                }
            },
            None => Err(false),
        },
        Ok(None) => Err(false),
        Err(_) => Err(false),
    }
}

} // verus!
