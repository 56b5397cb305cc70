//! Token issuing for a bare user record, signed with the `secret` key.
use vstd::prelude::*;
use crate::models::users::User;
use crate::reply::{Body, HttpReply, Reply};
use crate::token::{
    claim_names, claims_json, jwt_encode_hs256, jwt_hs256_encoding, jwt_hs256_payload,
    number_claims_view, text_claims_view,
};

verus! {

/// The claims `authenticate` signs: the subject and the company.
#[derive(Clone, Debug, PartialEq)]
pub struct Claims {
    pub sub: String,
    pub company: String,
}

/// The claims for a user: its email as subject, `ACME` as company. A user
/// record carries no separate user name; the email is what identifies an
/// account, so it is the subject.
pub fn authenticate_claims(user: &User) -> (c: Claims)
    ensures
        c.sub@ == user.email@,
        c.company@ == "ACME"@,
{
    Claims { sub: user.email.clone(), company: "ACME".to_string() }
}

/// The token `authenticate` issues for a subject.
pub open spec fn authenticate_token(sub: Seq<char>) -> Seq<char> {
    jwt_hs256_encoding(
        seq![("sub"@, sub), ("company"@, "ACME"@)],
        Seq::empty(),
        "secret"@,
    )
}

/// The claims of `authenticate`'s token as the JSON text they read back as.
pub open spec fn authenticate_claims_text(sub: Seq<char>) -> Seq<char> {
    claims_json(seq![("sub"@, sub), ("company"@, "ACME"@)], Seq::empty())
}

/// Answers 200 with `{"token": ..}`, the claims signed with the default
/// header and the key `secret`; decoding the token with `secret` gives
/// the claims back.
pub fn authenticate(user: &User) -> (r: HttpReply)
    ensures
        r.status == 200,
        r.body matches Body::Json(Reply::Token(t)) && t@ == authenticate_token(user.email@)
            && jwt_hs256_payload(t@, "secret"@) == Some(authenticate_claims_text(user.email@)),
{
    let claims = authenticate_claims(user);
    let mut text: Vec<(String, String)> = Vec::new();
    let k1 = "sub".to_string();
    let k2 = "company".to_string();
    text.push((k1, claims.sub));
    text.push((k2, claims.company));
    let numbers: Vec<(String, i64)> = Vec::new();
    assert(text_claims_view(text@) =~= seq![("sub"@, user.email@), ("company"@, "ACME"@)]);
    assert(number_claims_view(numbers@) =~= Seq::<(Seq<char>, i64)>::empty());
    proof {
        reveal_strlit("sub");
        reveal_strlit("company");
        let names = claim_names(text_claims_view(text@), number_claims_view(numbers@));
        assert(names =~= seq!["sub"@, "company"@]);
        assert(names[0].len() != names[1].len());
        assert(names.no_duplicates());
    }
    let token = match jwt_encode_hs256(&text, &numbers, "secret") {
        Ok(t) => t,
        Err(_) => {
            assert(false);
            String::new()
        },
    };
    HttpReply { status: 200, body: Body::Json(Reply::Token(token)) }
}

} // verus!
