//! HS256 JSON Web Tokens through `jsonwebtoken`: signing a list of claims,
//! and reading back the claims of a token whose signature verifies.
use vstd::prelude::*;
use crate::text::decimal;
use jsonwebtoken::{Algorithm, DecodingKey, EncodingKey, Header, Validation};
use serde_json::Value;

verus! {

#[verifier::external_type_specification]
#[verifier::external_body]
pub struct ExJwtError(jsonwebtoken::errors::Error);

/// String-valued claims to sign.
pub open spec fn text_claims_view(c: Seq<(String, String)>) -> Seq<(Seq<char>, Seq<char>)> {
    c.map_values(|p: (String, String)| (p.0@, p.1@))
}

/// Integer-valued claims to sign.
pub open spec fn number_claims_view(c: Seq<(String, i64)>) -> Seq<(Seq<char>, i64)> {
    c.map_values(|p: (String, i64)| (p.0@, p.1))
}

/// How a character stands inside a JSON string as `serde_json` writes it:
/// quote and backslash after a backslash, the five short control escapes,
/// other control characters as `\u00` and two lowercase hex digits, and
/// everything else as itself.
pub open spec fn json_char(c: char) -> Seq<char> {
    if c == '"' {
        seq!['\\', '"']
    } else if c == '\\' {
        seq!['\\', '\\']
    } else if c == '\u{8}' {
        seq!['\\', 'b']
    } else if c == '\t' {
        seq!['\\', 't']
    } else if c == '\n' {
        seq!['\\', 'n']
    } else if c == '\u{c}' {
        seq!['\\', 'f']
    } else if c == '\r' {
        seq!['\\', 'r']
    } else if (c as u32) < 0x20 {
        seq!['\\', 'u', '0', '0', hex_digit((c as u32 / 16) as nat), hex_digit((c as u32 % 16) as nat)]
    } else {
        seq![c]
    }
}

/// A lowercase hexadecimal digit.
pub open spec fn hex_digit(d: nat) -> char {
    if d < 10 {
        ('0' as u32 + d) as char
    } else {
        ('a' as u32 + (d - 10)) as char
    }
}

/// The characters of a JSON string's body, each escaped as `json_char` says.
pub open spec fn json_escaped(s: Seq<char>) -> Seq<char>
    decreases s.len(),
{
    if s.len() == 0 {
        Seq::empty()
    } else {
        json_escaped(s.drop_last()) + json_char(s.last())
    }
}

/// A JSON string literal.
pub open spec fn json_string(s: Seq<char>) -> Seq<char> {
    seq!['"'] + json_escaped(s) + seq!['"']
}

/// A JSON integer: an optional minus sign and the decimal digits.
pub open spec fn json_integer(n: i64) -> Seq<char> {
    if n < 0 {
        seq!['-'] + decimal((-n) as nat)
    } else {
        decimal(n as nat)
    }
}

/// The members `"name":value` of a claims object, string claims first.
pub open spec fn claim_members(
    text: Seq<(Seq<char>, Seq<char>)>,
    numbers: Seq<(Seq<char>, i64)>,
) -> Seq<Seq<char>> {
    text.map_values(|p: (Seq<char>, Seq<char>)| json_string(p.0) + seq![':'] + json_string(p.1))
        + numbers.map_values(|p: (Seq<char>, i64)| json_string(p.0) + seq![':'] + json_integer(p.1))
}

/// Members joined by commas.
pub open spec fn comma_joined(m: Seq<Seq<char>>) -> Seq<char>
    decreases m.len(),
{
    if m.len() == 0 {
        Seq::empty()
    } else if m.len() == 1 {
        m[0]
    } else {
        comma_joined(m.drop_last()) + seq![','] + m.last()
    }
}

/// The compact JSON object of the claims, in order, with no space.
pub open spec fn claims_json(
    text: Seq<(Seq<char>, Seq<char>)>,
    numbers: Seq<(Seq<char>, i64)>,
) -> Seq<char> {
    seq!['{'] + comma_joined(claim_members(text, numbers)) + seq!['}']
}

/// The claim names, string claims first.
pub open spec fn claim_names(
    text: Seq<(Seq<char>, Seq<char>)>,
    numbers: Seq<(Seq<char>, i64)>,
) -> Seq<Seq<char>> {
    text.map_values(|p: (Seq<char>, Seq<char>)| p.0) + numbers.map_values(
        |p: (Seq<char>, i64)| p.0,
    )
}

/// No claim name occurs twice.
pub open spec fn claim_names_distinct(
    text: Seq<(Seq<char>, Seq<char>)>,
    numbers: Seq<(Seq<char>, i64)>,
) -> bool {
    claim_names(text, numbers).no_duplicates()
}

/// The claims of `token` as compact JSON text (the claims part parsed as a
/// `serde_json::Value` and written back), when `token` is three
/// dot-separated base64url parts whose header names HS256, whose
/// HMAC-SHA256 signature verifies under `secret`'s bytes, and whose claims
/// part decodes to JSON; `None` otherwise.
pub uninterp spec fn jwt_hs256_payload(token: Seq<char>, secret: Seq<char>) -> Option<Seq<char>>;

/// The token `jsonwebtoken::encode` writes with the default (HS256)
/// header for a JSON object holding the string claims and then the
/// integer claims, in order, signed with `secret`.
pub uninterp spec fn jwt_hs256_encoding(
    text: Seq<(Seq<char>, Seq<char>)>,
    numbers: Seq<(Seq<char>, i64)>,
    secret: Seq<char>,
) -> Seq<char>;

/// `jsonwebtoken::encode` with the default header (HS256) and an HMAC
/// key made of `secret`'s bytes, over a JSON object of the given claims.
/// It does not fail for an HMAC key; the token it writes is named by
/// `jwt_hs256_encoding`. Its claims part is the object `serde_json` writes
/// for the map, so when the names are distinct, decoding the token with
/// the same secret gives back that object's text.
#[verifier::external_body]
pub(crate) fn jwt_encode_hs256(text: &Vec<(String, String)>, numbers: &Vec<(String, i64)>, secret: &str) -> (r:
    Result<String, jsonwebtoken::errors::Error>)
    ensures
        r is Ok,
        r matches Ok(t) ==> t@ == jwt_hs256_encoding(
            text_claims_view(text@),
            number_claims_view(numbers@),
            secret@,
        ),
        claim_names_distinct(text_claims_view(text@), number_claims_view(numbers@)) ==> (r matches Ok(
            t,
        ) ==> jwt_hs256_payload(t@, secret@) == Some(
            claims_json(text_claims_view(text@), number_claims_view(numbers@)),
        )),
{
    let mut claims = serde_json::Map::new();
    for (name, value) in text {
        claims.insert(name.clone(), Value::String(value.clone()));
    }
    for (name, value) in numbers {
        claims.insert(name.clone(), Value::from(*value));
    }
    jsonwebtoken::encode(&Header::default(), &claims, &EncodingKey::from_secret(secret.as_bytes()))
}

/// `jsonwebtoken::decode` into a `serde_json::Value` with an HMAC key made
/// of `secret`'s bytes and `Validation::new(Algorithm::HS256)`, giving the
/// claims written back as JSON text, or the error's `Debug` text. Besides
/// what `jwt_hs256_payload` covers, the call reads the clock: it refuses a
/// token without an integer `exp`, one whose `exp` is more than 60 seconds
/// before now, and one with an `aud` claim. So only this is stated: a
/// success carries the payload, and a token without one is refused. Which
/// error text comes back is not stated.
#[verifier::external_body]
pub(crate) fn jwt_decode_hs256(token: &str, secret: &str) -> (r: Result<String, String>)
    ensures
        r matches Ok(p) ==> jwt_hs256_payload(token@, secret@) == Some(p@),
        jwt_hs256_payload(token@, secret@) is None ==> r is Err,
{
    let key = DecodingKey::from_secret(secret.as_bytes());
    match jsonwebtoken::decode::<Value>(token, &key, &Validation::new(Algorithm::HS256)) {
        Ok(data) => Ok(data.claims.to_string()),
        Err(e) => Err(format!("{:?}", e)),
    }
}

} // verus!
