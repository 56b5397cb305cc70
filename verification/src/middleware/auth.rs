//! Token validation with the `secret` key, reporting why a token is
//! refused, and the decision of `auth_middleware`.
use vstd::prelude::*;
use crate::middleware::jwt::Claims;
use crate::models::users::User;
use crate::reply::DbError;
use crate::text::{replace_all, replace_all_str};
use crate::token::{jwt_decode_hs256, jwt_hs256_payload};

verus! {

pub open spec fn invalid_prefix() -> Seq<char> {
    "Token inválido: "@
}

pub open spec fn expired_message() -> Seq<char> {
    "Token expirado"@
}

pub open spec fn user_not_found_message() -> Seq<char> {
    "Usuário não encontrado"@
}

pub open spec fn lookup_error_prefix() -> Seq<char> {
    "Erro ao buscar usuário: "@
}

pub open spec fn mismatch_message() -> Seq<char> {
    "Token inválido ou usuário não encontrado"@
}

/// The key these tokens are signed with.
pub open spec fn auth_secret() -> Seq<char> {
    "secret"@
}

/// The first part of `validate_token`: decode `token` with the key
/// `secret`, checking its HS256 signature, into the claims as JSON text, or
/// the decoding error's `Debug` text. A success carries the token's
/// verified payload; a token whose signature does not verify under
/// `secret` is refused. (The decoding also reads the clock; see
/// `jwt_decode_hs256`.)
pub fn validate_token_decode(token: &str) -> (r: Result<String, String>)
    ensures
        r matches Ok(p) ==> jwt_hs256_payload(token@, auth_secret()) == Some(p@),
        jwt_hs256_payload(token@, auth_secret()) is None ==> r is Err,
{
    jwt_decode_hs256(token, "secret")
}

fn concat(a: &str, b: String) -> (r: String)
    ensures
        r@ == a@ + b@,
{
    let mut s = a.to_string();
    s.append(b.as_str());
    s
}

/// The step of `validate_token` after decoding, for the claims read from
/// the text `validate_token_decode` gave, or the `Debug` text of why there
/// are none: "Token inválido: " and that text when it did not decode;
/// "Token expirado" when `now` is at or past `exp`; else the id to look up.
pub fn validate_token_begin(decoded: Result<Claims, String>, now: u64) -> (r: Result<String, String>)
    ensures
        decoded matches Err(d) ==> (r matches Err(m) && m@ == invalid_prefix() + d@),
        decoded matches Ok(c) ==> if now >= c.exp {
            r matches Err(m) && m@ == expired_message()
        } else {
            r matches Ok(i) && i@ == c.id@
        },
{
    match decoded {
        Ok(claims) => {
            if now >= claims.exp {
                Err("Token expirado".to_string())
            } else {
                Ok(claims.id)
            }
        },
        Err(e) => Err(concat("Token inválido: ", e)),
    }
}

/// The second step of `validate_token`, after looking the user up by id:
/// `Ok(true)` when the user holds exactly this token; otherwise why not.
pub fn validate_token_finish(token: &str, found: Result<Option<User>, DbError>) -> (r: Result<
    bool,
    String,
>)
    ensures
        found matches Ok(Some(u)) ==> if u.token matches Some(t) && t@ == token@ {
            r == Ok::<bool, String>(true)
        } else {
            r matches Err(m) && m@ == mismatch_message()
        },
        found matches Ok(None) ==> (r matches Err(m) && m@ == user_not_found_message()),
        found matches Err(e) ==> (r matches Err(m) && m@ == lookup_error_prefix() + e.debug@),
{
    let presented = token.to_string();
    match found {
        Ok(Some(user)) => {
            let holds = match user.token {
                Some(stored) => stored == presented,
                None => false,
            };
            if holds {
                Ok(true)
            } else {
                Err("Token inválido ou usuário não encontrado".to_string())
            }
        },
        Ok(None) => Err("Usuário não encontrado".to_string()),
        Err(e) => Err(concat("Erro ao buscar usuário: ", e.debug)),
    }
}

/// The token of an `Authorization` header: the header with every
/// "Bearer " removed.
pub fn bearer_token(header: &str) -> (r: String)
    ensures
        r@ == replace_all(header@, "Bearer "@, ""@),
{
    proof {
        reveal_strlit("Bearer ");
    }
    replace_all_str(header, "Bearer ", "")
}

pub open spec fn missing_token_message() -> Seq<char> {
    "Token não informado"@
}

pub open spec fn refused_token_message() -> Seq<char> {
    "Token inválido"@
}

/// The token `auth_middleware` checks, or the 401 message "Token não
/// informado" when the request has no `Authorization` header.
pub fn auth_middleware_token(header: Option<&str>) -> (r: Result<String, String>)
    ensures
        header matches Some(h) ==> (r matches Ok(t) && t@ == replace_all(h@, "Bearer "@, ""@)),
        header is None ==> (r matches Err(m) && m@ == missing_token_message()),
{
    match header {
        Some(h) => Ok(bearer_token(h)),
        None => Err("Token não informado".to_string()),
    }
}

/// What `auth_middleware` does with the validation's outcome: let the request
/// through, or refuse it with 401 "Token inválido".
pub fn auth_middleware_verdict(valid: &Result<bool, String>) -> (r: Result<(), String>)
    ensures
        valid is Ok ==> r is Ok,
        valid is Err ==> (r matches Err(m) && m@ == refused_token_message()),
{
    match valid {
        Ok(_) => Ok(()),
        Err(_) => Err("Token inválido".to_string()),
    }
}

} // verus!
