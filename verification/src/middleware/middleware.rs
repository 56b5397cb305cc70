//! The request guard: every request must carry a token that
//! `auth::validate_token` accepts, else it is refused with 401.
use vstd::prelude::*;
use crate::text::replace_all;
use crate::middleware::auth::bearer_token;

verus! {

/// The factory of the guard.
#[derive(Clone, Copy, Debug, PartialEq, Eq)]
pub struct AuthCheck;

/// The guard around an inner service.
pub struct AuthMiddleware<S> {
    pub service: S,
}

/// `"k": "v"` pairs as `bson` displays them, separated by `, `.
pub open spec fn bson_pairs_text(pairs: Seq<(Seq<char>, Seq<char>)>) -> Seq<char>
    decreases pairs.len(),
{
    if pairs.len() == 0 {
        Seq::empty()
    } else {
        let p = pairs.last();
        let item = seq!['"'] + p.0 + seq!['"', ':', ' ', '"'] + p.1 + seq!['"'];
        if pairs.len() == 1 {
            item
        } else {
            bson_pairs_text(pairs.drop_last()) + seq![',', ' '] + item
        }
    }
}

/// How `bson::Document` displays a document of string values:
/// `{ "k": "v", .. }`, or `{}` when it is empty.
pub open spec fn bson_document_text(pairs: Seq<(Seq<char>, Seq<char>)>) -> Seq<char> {
    if pairs.len() == 0 {
        seq!['{', '}']
    } else {
        seq!['{', ' '] + bson_pairs_text(pairs) + seq![' ', '}']
    }
}

pub open spec fn pairs_view(pairs: Seq<(String, String)>) -> Seq<(Seq<char>, Seq<char>)> {
    pairs.map_values(|p: (String, String)| (p.0@, p.1@))
}

/// `bson::Document` with the given string values inserted in order,
/// then displayed (`to_string`); when no key repeats, the text is the one
/// `bson_document_text` describes.
#[verifier::external_body]
fn bson_document_to_string(pairs: &Vec<(String, String)>) -> (r: String)
    ensures
        (forall|i: int, j: int|
            0 <= i < j < pairs@.len() ==> pairs@[i].0@ != pairs@[j].0@) ==> r@
            == bson_document_text(pairs_view(pairs@)),
{
    let mut doc = bson::Document::new();
    for (key, value) in pairs {
        doc.insert(key.clone(), value.clone());
    }
    doc.to_string()
}

/// The message a refused request is answered with.
pub open spec fn unauthorized_text() -> Seq<char> {
    bson_document_text(
        seq![("message"@, "Unauthorized access."@), ("error"@, "InvalidSignature"@)],
    )
}

impl AuthCheck {
    /// Wraps the inner service in the guard.
    pub fn new_transform<S>(&self, service: S) -> (m: AuthMiddleware<S>)
        ensures
            m.service == service,
    {
        AuthMiddleware { service }
    }

    /// The token of a request: the `Authorization` header (when it is
    /// readable text) with every "Bearer " removed, or empty.
    pub fn request_token(header: Option<&str>) -> (r: String)
        ensures
            header matches Some(h) ==> r@ == replace_all(h@, "Bearer "@, ""@),
            header is None ==> r@ == Seq::<char>::empty(),
    {
        match header {
            Some(h) => bearer_token(h),
            None => String::new(),
        }
    }

    /// What the guard answers: nothing when the token checks (the inner
    /// service answers), else the 401 message.
    pub fn rejection(valid: &Result<bool, String>) -> (r: Option<String>)
        ensures
            valid is Ok ==> r is None,
            valid is Err ==> (r matches Some(m) && m@ == unauthorized_text()),
    {
        match valid {
            Ok(_) => None,
            Err(_) => {
                let mut pairs: Vec<(String, String)> = Vec::new();
                let k1 = "message".to_string();
                let v1 = "Unauthorized access.".to_string();
                let k2 = "error".to_string();
                let v2 = "InvalidSignature".to_string();
                assert(k1@ == "message"@ && k2@ == "error"@);
                pairs.push((k1, v1));
                pairs.push((k2, v2));
                proof {
                    reveal_strlit("message");
                    reveal_strlit("error");
                    assert("message"@[0] != "error"@[0]);
                    assert(pairs@[0].0@ != pairs@[1].0@);
                    assert(pairs_view(pairs@) =~= seq![
                        ("message"@, "Unauthorized access."@),
                        ("error"@, "InvalidSignature"@),
                    ]);
                }
                Some(bson_document_to_string(&pairs))
            },
        }
    }
}

} // verus!
