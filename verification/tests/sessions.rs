use notes_api::clock::{now, UtcInstant};
use notes_api::controller::users::{
    login_after_find, login_lookup_email, login_reply, login_token, login_token_update,
    logout_after_update, logout_lookup_email, logout_reply, logout_token_update, new_user,
    register_record, register_reply, users_collection, LoginStep, TokenUpdate,
};
use notes_api::models::users::LogoutRequest;
use notes_api::handler::{authenticate, authenticate_claims};
use notes_api::middleware::auth;
use notes_api::middleware::jwt::{self, Claims, UserQuery};
use notes_api::middleware::middleware::AuthCheck;
use notes_api::models::users::User;
use notes_api::reply::{Body, DbError, HttpReply, Reply};
use notes_api::routes::root_info;

fn user(token: Option<&str>) -> User {
    User {
        id: Some("u-1".to_string()),
        email: "ana@example.com".to_string(),
        password: "pw".to_string(),
        token: token.map(|t| t.to_string()),
    }
}

fn db_error() -> DbError {
    DbError { display: "net".to_string(), debug: "Error { kind: Net }".to_string() }
}

fn decode_with(token: &str, secret: &[u8]) -> serde_json::Value {
    let mut v = jsonwebtoken::Validation::new(jsonwebtoken::Algorithm::HS256);
    v.required_spec_claims.clear();
    v.validate_exp = false;
    jsonwebtoken::decode::<serde_json::Value>(token, &jsonwebtoken::DecodingKey::from_secret(secret), &v)
        .unwrap()
        .claims
}

fn unix_now() -> u64 {
    std::time::SystemTime::now().duration_since(std::time::UNIX_EPOCH).unwrap().as_secs()
}

/// Reads the four session claims out of the JSON text a token decoded to,
/// as the service does; a failed decoding passes its text through.
fn read_claims(decoded: Result<String, String>) -> Result<Claims, String> {
    let text = decoded?;
    let c: serde_json::Value = serde_json::from_str(&text).unwrap();
    Ok(Claims {
        email: c["email"].as_str().unwrap().to_string(),
        id: c["id"].as_str().unwrap().to_string(),
        date: c["date"].as_str().unwrap().to_string(),
        exp: c["exp"].as_u64().unwrap(),
    })
}

fn claims(exp: u64) -> Claims {
    Claims { email: "e".to_string(), id: "i".to_string(), date: "d".to_string(), exp }
}

#[test]
fn register_builds_account() {
    let u = new_user(user(Some("old")), "id-7".to_string());
    assert_eq!(u, User { id: Some("id-7".to_string()), email: "ana@example.com".to_string(), password: "pw".to_string(), token: None });
    let r = register_record(user(Some("old")));
    assert!(uuid::Uuid::parse_str(r.id.as_ref().unwrap()).is_ok());
    assert_eq!(r.token, None);
    assert_eq!(register_reply(r.clone(), Ok(())).body, Body::Json(Reply::User(r.clone())));
    assert_eq!(register_reply(r, Err(db_error())), HttpReply { status: 500, body: Body::Empty });
}

#[test]
fn login_lookup_outcomes() {
    let body = user(None);
    assert_eq!(login_after_find(&body, Ok(Some(user(None)))), LoginStep::Issue(user(None)));
    let mut wrong = user(None);
    wrong.password = "other".to_string();
    assert_eq!(login_after_find(&body, Ok(Some(wrong))), LoginStep::Done(HttpReply { status: 401, body: Body::Empty }));
    assert_eq!(login_after_find(&body, Ok(None)), LoginStep::Done(HttpReply { status: 404, body: Body::Empty }));
    assert_eq!(login_after_find(&body, Err(db_error())), LoginStep::Done(HttpReply { status: 500, body: Body::Empty }));
}

#[test]
fn login_token_carries_session_claims() {
    let t = UtcInstant { secs: 1_700_000_000, nanos: 5 };
    let token = login_token(&user(None), t);
    let claims = decode_with(&token, b"JWT_SECRET");
    assert_eq!(claims["email"], "ana@example.com");
    assert_eq!(claims["id"], "u-1");
    assert_eq!(claims["date"], "2023-11-14T22:13:20.000000005+00:00");
    assert_eq!(claims["exp"], 1_700_000_000i64 + 86_400);
    let header = jsonwebtoken::decode_header(&token).unwrap();
    assert_eq!(header.alg, jsonwebtoken::Algorithm::HS256);
}

#[test]
fn login_token_validates_until_expiry() {
    let issued = now();
    let u = user(None);
    let token = login_token(&u, issued);
    let text = jwt::validate_token_decode(&token);
    let date = chrono::DateTime::from_timestamp(issued.secs, issued.nanos).unwrap().to_rfc3339();
    let expected = format!(
        "{{\"email\":\"ana@example.com\",\"id\":\"u-1\",\"date\":\"{}\",\"exp\":{}}}",
        date,
        issued.secs + 86_400
    );
    assert_eq!(text, Ok(expected));
    let decoded = read_claims(text);
    assert_eq!(decoded.clone().unwrap().exp, issued.secs as u64 + 86_400);
    let q = jwt::validate_token_begin(decoded.clone(), unix_now()).unwrap();
    assert_eq!(q, UserQuery { id: "u-1".to_string(), email: "ana@example.com".to_string() });
    assert_eq!(jwt::validate_token_begin(decoded, issued.secs as u64 + 86_400), Err(false));
    let stored = User { token: Some(token.clone()), ..u };
    assert_eq!(jwt::validate_token_finish(&token, Ok(Some(stored.clone()))), Ok(true));
    assert_eq!(jwt::validate_token_finish("other", Ok(Some(stored))), Err(false));
}

#[test]
fn session_validation_refusals() {
    let garbage = read_claims(jwt::validate_token_decode("garbage"));
    assert_eq!(garbage, Err("Error(InvalidToken)".to_string()));
    assert_eq!(jwt::validate_token_begin(garbage, unix_now()), Err(false));
    let old = login_token(&user(None), UtcInstant { secs: 1000, nanos: 0 });
    assert_eq!(jwt::validate_token_decode(&old), Err("Error(ExpiredSignature)".to_string()));
    assert_eq!(jwt::validate_token_begin(read_claims(jwt::validate_token_decode(&old)), unix_now()), Err(false));
    let foreign = login_token(&user(None), now());
    assert_eq!(auth::validate_token_decode(&foreign), Err("Error(InvalidSignature)".to_string()));
    assert_eq!(jwt::validate_token_begin(read_claims(auth::validate_token_decode(&foreign)), unix_now()), Err(false));
    assert_eq!(jwt::validate_token_finish("t", Ok(Some(user(None)))), Err(false));
    assert_eq!(jwt::validate_token_finish("t", Ok(None)), Err(false));
    assert_eq!(jwt::validate_token_finish("t", Err(db_error())), Err(false));
}

#[test]
fn first_step_on_decoded_claims() {
    assert_eq!(jwt::validate_token_begin(Ok(claims(100)), 99), Ok(UserQuery { id: "i".to_string(), email: "e".to_string() }));
    assert_eq!(jwt::validate_token_begin(Ok(claims(100)), 100), Err(false));
    assert_eq!(jwt::validate_token_begin(Err("Error(InvalidSignature)".to_string()), 1), Err(false));
    assert_eq!(auth::validate_token_begin(Ok(claims(100)), 99), Ok("i".to_string()));
    assert_eq!(auth::validate_token_begin(Ok(claims(100)), 100), Err("Token expirado".to_string()));
    assert_eq!(
        auth::validate_token_begin(Err("Error(ExpiredSignature)".to_string()), 1),
        Err("Token inválido: Error(ExpiredSignature)".to_string())
    );
}

#[test]
fn login_and_logout_replies() {
    let r = login_reply(user(None), "tok".to_string(), Ok(()));
    assert_eq!(r, HttpReply { status: 200, body: Body::Json(Reply::User(user(Some("tok")))) });
    assert_eq!(login_reply(user(None), "tok".to_string(), Err(db_error())).status, 500);
    assert_eq!(logout_after_update(Ok(())), None);
    assert_eq!(logout_after_update(Err(db_error())), Some(HttpReply { status: 500, body: Body::Empty }));
    assert_eq!(logout_reply(user(None)).body, Body::Json(Reply::User(user(None))));
    assert_eq!(jwt::validate_token_finish("tok", Ok(Some(user(None)))), Err(false));
}

fn authenticate_token_text() -> String {
    match authenticate(&user(None)).body {
        Body::Json(Reply::Token(t)) => t,
        other => panic!("unexpected {other:?}"),
    }
}

#[test]
fn authenticate_signs_subject_and_company() {
    let c = authenticate_claims(&user(None));
    assert_eq!((c.sub.as_str(), c.company.as_str()), ("ana@example.com", "ACME"));
    let token = authenticate_token_text();
    let claims = decode_with(&token, b"secret");
    assert_eq!(claims["sub"], "ana@example.com");
    assert_eq!(claims["company"], "ACME");
    let mut map = serde_json::Map::new();
    map.insert("sub".to_string(), serde_json::Value::String("ana@example.com".to_string()));
    map.insert("company".to_string(), serde_json::Value::String("ACME".to_string()));
    let expected = jsonwebtoken::encode(
        &jsonwebtoken::Header::default(),
        &map,
        &jsonwebtoken::EncodingKey::from_secret(b"secret"),
    )
    .unwrap();
    assert_eq!(token, expected);
    assert_eq!(
        auth::validate_token_decode(&token),
        Err("Error(MissingRequiredClaim(\"exp\"))".to_string())
    );
    assert_eq!(
        auth::validate_token_begin(read_claims(auth::validate_token_decode(&token)), unix_now()),
        Err("Token inválido: Error(MissingRequiredClaim(\"exp\"))".to_string())
    );
}

#[test]
fn session_claims_text_escapes_strings() {
    let issued = now();
    let mut u = user(None);
    u.email = "a\"b\\c\n\t\u{1}\u{7f}é/".to_string();
    let token = login_token(&u, issued);
    let date = chrono::DateTime::from_timestamp(issued.secs, issued.nanos).unwrap().to_rfc3339();
    let expected = format!(
        "{{\"email\":\"a\\\"b\\\\c\\n\\t\\u0001\u{7f}é/\",\"id\":\"u-1\",\"date\":\"{}\",\"exp\":{}}}",
        date,
        issued.secs + 86_400
    );
    assert_eq!(jwt::validate_token_decode(&token), Ok(expected));
    assert_eq!(read_claims(jwt::validate_token_decode(&token)).unwrap().email, u.email);
}

#[test]
fn signed_claims_keep_their_order() {
    let token = authenticate_token_text();
    let mut v = jsonwebtoken::Validation::new(jsonwebtoken::Algorithm::HS256);
    v.required_spec_claims.clear();
    v.validate_exp = false;
    let data = jsonwebtoken::decode::<serde_json::Map<String, serde_json::Value>>(
        &token,
        &jsonwebtoken::DecodingKey::from_secret(b"secret"),
        &v,
    )
    .unwrap();
    let names: Vec<&String> = data.claims.keys().collect();
    assert_eq!(names, vec!["sub", "company"]);
    let session = login_token(&user(None), UtcInstant { secs: 10, nanos: 0 });
    let data = jsonwebtoken::decode::<serde_json::Map<String, serde_json::Value>>(
        &session,
        &jsonwebtoken::DecodingKey::from_secret(b"JWT_SECRET"),
        &v,
    )
    .unwrap();
    let names: Vec<&String> = data.claims.keys().collect();
    assert_eq!(names, vec!["email", "id", "date", "exp"]);
    assert!(jsonwebtoken::decode::<serde_json::Value>(
        &session,
        &jsonwebtoken::DecodingKey::from_secret(b"other"),
        &v
    )
    .is_err());
}

#[test]
fn auth_messages() {
    assert_eq!(auth::validate_token_finish("t", Ok(Some(user(Some("t"))))), Ok(true));
    assert_eq!(
        auth::validate_token_finish("t", Ok(Some(user(Some("u"))))),
        Err("Token inválido ou usuário não encontrado".to_string())
    );
    assert_eq!(auth::validate_token_finish("t", Ok(None)), Err("Usuário não encontrado".to_string()));
    assert_eq!(
        auth::validate_token_finish("t", Err(db_error())),
        Err("Erro ao buscar usuário: Error { kind: Net }".to_string())
    );
    // Session tokens from login are signed with another key: the decoding
    // error's text follows the prefix.
    let session = login_token(&user(None), now());
    let err = jsonwebtoken::decode::<serde_json::Value>(
        &session,
        &jsonwebtoken::DecodingKey::from_secret(b"secret"),
        &jsonwebtoken::Validation::new(jsonwebtoken::Algorithm::HS256),
    )
    .unwrap_err();
    let text = format!("{:?}", err);
    assert_eq!(
        auth::validate_token_begin(Err(text.clone()), unix_now()),
        Err(format!("Token inválido: {text}"))
    );
}

#[test]
fn auth_middleware_decisions() {
    assert_eq!(auth::auth_middleware_token(Some("Bearer abc")), Ok("abc".to_string()));
    assert_eq!(auth::auth_middleware_token(Some("abc")), Ok("abc".to_string()));
    assert_eq!(auth::auth_middleware_token(None), Err("Token não informado".to_string()));
    assert_eq!(auth::auth_middleware_verdict(&Ok(true)), Ok(()));
    assert_eq!(auth::auth_middleware_verdict(&Err("x".to_string())), Err("Token inválido".to_string()));
    assert_eq!(auth::bearer_token("Bearer Bearer t"), "t");
}

#[test]
fn guard_decisions() {
    assert_eq!(AuthCheck::request_token(Some("Bearer tok")), "tok");
    assert_eq!(AuthCheck::request_token(None), "");
    assert_eq!(AuthCheck::rejection(&Ok(true)), None);
    let mut doc = bson::Document::new();
    doc.insert("message", "Unauthorized access.");
    doc.insert("error", "InvalidSignature");
    assert_eq!(AuthCheck::rejection(&Err("x".to_string())), Some(doc.to_string()));
    assert_eq!(
        doc.to_string(),
        "{ \"message\": \"Unauthorized access.\", \"error\": \"InvalidSignature\" }"
    );
    let m = AuthCheck.new_transform(7u8);
    assert_eq!(m.service, 7);
}

#[test]
fn clock_texts() {
    let session = login_token(&user(None), UtcInstant { secs: 0, nanos: 0 });
    assert_eq!(decode_with(&session, b"JWT_SECRET")["date"], "1970-01-01T00:00:00+00:00");
    let session = login_token(&user(None), UtcInstant { secs: 1_700_000_000, nanos: 123_000_000 });
    assert_eq!(decode_with(&session, b"JWT_SECRET")["date"], "2023-11-14T22:13:20.123+00:00");
    let n = now();
    assert!(n.secs > 1_600_000_000 && n.nanos < 1_000_000_000);
}

#[test]
fn root_describes_service() {
    let info = root_info("notes", "0.1.0");
    assert_eq!(info.api, "notes");
    assert_eq!(info.version, "0.1.0");
    assert_eq!(info.database, None);
    assert_eq!(info.date_created, chrono::Utc::now().format("%d-%m-%Y").to_string());
}

#[test]
fn account_writes() {
    assert_eq!(users_collection(), "users");
    let body = user(None);
    assert_eq!(login_lookup_email(&body), "ana@example.com");
    let w = login_token_update(&body, "tok".to_string());
    assert_eq!(w, TokenUpdate { email: "ana@example.com".to_string(), token: Some("tok".to_string()) });
    let after_login = User { token: w.token.clone(), ..body.clone() };
    assert_eq!(jwt::validate_token_finish("tok", Ok(Some(after_login))), Ok(true));
    let req = LogoutRequest { email: "ana@example.com".to_string() };
    let w = logout_token_update(&req);
    assert_eq!(w, TokenUpdate { email: "ana@example.com".to_string(), token: None });
    assert_eq!(logout_lookup_email(&req), "ana@example.com");
    let after_logout = User { token: w.token, ..user(Some("tok")) };
    assert_eq!(jwt::validate_token_finish("tok", Ok(Some(after_logout))), Err(false));
}
