use postboard::error::ApiError;
use postboard::post::Post;
use postboard::schema::QueryRoot;
use postboard::text::decimal_string;
use postboard::user::{signing_key, NewUser, User, UserKey, UserLookup, UserRecord};

fn alice(hash: &str) -> User {
    User {
        id: 7,
        email: "alice@example.com".to_string(),
        hash: hash.to_string(),
        username: "alice".to_string(),
        firstname: "Alice".to_string(),
        lastname: "Liddell".to_string(),
    }
}

fn payload(token: &str, key: &str) -> serde_json::Value {
    let mut validation = jsonwebtoken::Validation::new(jsonwebtoken::Algorithm::HS256);
    validation.validate_exp = false;
    validation.required_spec_claims.clear();
    jsonwebtoken::decode::<serde_json::Value>(
        token,
        &jsonwebtoken::DecodingKey::from_secret(key.as_bytes()),
        &validation,
    )
    .unwrap()
    .claims
}

#[test]
fn decimal_of_extremes() {
    assert_eq!(decimal_string(0), "0");
    assert_eq!(decimal_string(-42), "-42");
    assert_eq!(decimal_string(i32::MAX), "2147483647");
    assert_eq!(decimal_string(i32::MIN), "-2147483648");
}

#[test]
fn signing_key_defaults_to_secret() {
    assert_eq!(signing_key(None), "secret");
    assert_eq!(signing_key(Some("k3y".to_string())), "k3y");
}

#[test]
fn claims_json_of_user() {
    let u = alice("h");
    assert_eq!(
        u.claims_json(),
        "{\"id\":7,\"email\":\"alice@example.com\",\"hash\":\"h\",\"username\":\"alice\",\"firstname\":\"Alice\",\"lastname\":\"Liddell\"}"
    );
}

#[test]
fn claims_json_escapes_like_serde() {
    let mut u = alice("h");
    u.firstname = "q\"b\\n\nt\t\u{1}é".to_string();
    let text = u.claims_json();
    let parsed: serde_json::Value = serde_json::from_str(&text).unwrap();
    assert_eq!(parsed["firstname"], serde_json::Value::String(u.firstname.clone()));
    assert!(text.contains("\"firstname\":\"q\\\"b\\\\n\\nt\\t\\u0001é\""));
    assert_eq!(serde_json::to_string(&u.firstname).unwrap(), "\"q\\\"b\\\\n\\nt\\t\\u0001é\"");
}

#[test]
fn user_token_carries_claims() {
    let u = alice("h");
    let token = u.token("secret").unwrap();
    assert_eq!(token.split('.').count(), 3);
    let expected: serde_json::Value = serde_json::from_str(&u.claims_json()).unwrap();
    assert_eq!(payload(&token, "secret"), expected);
    assert_eq!(token, u.token("secret").unwrap());
    assert_ne!(token, u.token("other").unwrap());
}

#[test]
fn login_without_username_is_refused() {
    let err = User::login_username(None).unwrap_err();
    assert!(matches!(err, ApiError::NoUsernameSupplied));
    assert_eq!(err.message(), "no username supplied");
    assert_eq!(User::login_username(Some("bob".to_string())).unwrap(), "bob");
}

#[test]
fn login_refusals() {
    let e = User::login(None, Some("pw".to_string()), "secret").unwrap_err();
    assert_eq!(e.message(), "no user found");
    let e = User::login(Some(alice("h")), None, "secret").unwrap_err();
    assert_eq!(e.message(), "no password found found");
    let e = User::login(Some(alice("not a bcrypt hash")), Some("pw".to_string()), "secret").unwrap_err();
    assert!(matches!(e, ApiError::Hash(_)));
}

#[test]
fn login_checks_password() {
    let hash = bcrypt::hash("hunter2", 4).unwrap();
    let token = User::login(Some(alice(&hash)), Some("hunter2".to_string()), "secret").unwrap();
    assert_eq!(payload(&token, "secret")["username"], "alice");
    let e = User::login(Some(alice(&hash)), Some("hunter3".to_string()), "secret").unwrap_err();
    assert!(matches!(e, ApiError::PasswordInvalid));
    assert_eq!(e.message(), "password invalid");
}

#[test]
fn issue_token_for_each_verdict() {
    let u = alice("h");
    assert!(matches!(User::issue_token(&u, Ok(false), "k"), Err(ApiError::PasswordInvalid)));
    let t = User::issue_token(&u, Ok(true), "k").unwrap();
    assert_eq!(t, u.token("k").unwrap());
    let bad = bcrypt::verify("x", "garbage").unwrap_err();
    assert!(matches!(User::issue_token(&u, Err(bad), "k"), Err(ApiError::Hash(_))));
}

fn registration(password: &str, confirm: &str) -> NewUser {
    NewUser {
        email: "bob@example.com".to_string(),
        username: "bob".to_string(),
        password: password.to_string(),
        password_confirm: confirm.to_string(),
        firstname: "Bob".to_string(),
        lastname: "Builder".to_string(),
    }
}

#[test]
fn create_refuses_differing_passwords() {
    let e = User::create(registration("a", "b")).unwrap_err();
    assert!(matches!(e, ApiError::PasswordsDiffer));
    assert_eq!(e.message(), "passwords are not the same");
}

#[test]
fn create_hashes_password() {
    let rec = User::create(registration("s3cret", "s3cret")).unwrap();
    assert_eq!((rec.username.as_str(), rec.email.as_str()), ("bob", "bob@example.com"));
    assert_eq!((rec.firstname.as_str(), rec.lastname.as_str()), ("Bob", "Builder"));
    assert_ne!(rec.hash, "s3cret");
    assert_eq!(rec.hash.len(), 60);
    assert!(rec.hash.starts_with("$2b$12$"));
    assert!(bcrypt::verify("s3cret", &rec.hash).unwrap());
    let stored = User { id: 1, email: rec.email.clone(), hash: rec.hash.clone(), username: rec.username.clone(),
        firstname: rec.firstname.clone(), lastname: rec.lastname.clone() };
    assert!(User::login(Some(stored), Some("s3cret".to_string()), "secret").is_ok());
}

#[test]
fn record_from_hash_outcome() {
    let rec = User::record(registration("p", "p"), Ok("H".to_string())).unwrap();
    assert_eq!(rec.hash, "H");
    let bad = bcrypt::verify("x", "garbage").unwrap_err();
    assert!(matches!(User::record(registration("p", "p"), Err(bad)), Err(ApiError::Hash(_))));
}

fn record() -> UserRecord {
    UserRecord {
        username: "bob".to_string(),
        email: "bob@example.com".to_string(),
        hash: "H".to_string(),
        firstname: "Bob".to_string(),
        lastname: "Builder".to_string(),
    }
}

#[test]
fn registration_claims_and_token() {
    let c = record().claims();
    assert_eq!((c.id, c.exp), (1, i32::MAX));
    assert_eq!(
        c.claims_json(),
        "{\"id\":1,\"email\":\"bob@example.com\",\"hash\":\"H\",\"username\":\"bob\",\"firstname\":\"Bob\",\"lastname\":\"Builder\",\"exp\":2147483647}"
    );
    let token = record().token("secret").unwrap();
    assert_eq!(payload(&token, "secret")["exp"], 2147483647);
}

#[test]
fn registration_token_is_accepted() {
    let token = record().token("secret").unwrap();
    let claims = User::from_token(&token, "secret").unwrap();
    let v: serde_json::Value = serde_json::from_str(&claims).unwrap();
    assert_eq!(v["username"], "bob");
    assert!(matches!(User::from_token(&token, "wrong"), Err(ApiError::Token(_))));
}

#[test]
fn login_token_without_expiry_is_refused() {
    let token = alice("h").token("secret").unwrap();
    assert!(matches!(User::from_token(&token, "secret"), Err(ApiError::Token(_))));
}

#[test]
fn is_logged_in_needs_token() {
    let e = QueryRoot::is_logged_in(&None, "secret").unwrap_err();
    assert!(matches!(e, ApiError::MissingToken));
    assert_eq!(e.message(), "False");
    let token = record().token("secret").unwrap();
    assert!(QueryRoot::is_logged_in(&Some(token), "secret").is_ok());
    assert!(matches!(QueryRoot::is_logged_in(&Some("x.y.z".to_string()), "secret"), Err(ApiError::Token(_))));
}

#[test]
fn get_user_prefers_username_then_id_then_email() {
    let s = |x: &str| Some(x.to_string());
    assert!(matches!(User::get_user(s("u"), s("e"), Some(3)), Ok(UserKey::Username(u)) if u == "u"));
    assert!(matches!(User::get_user(None, s("e"), Some(3)), Ok(UserKey::Id(3))));
    assert!(matches!(User::get_user(None, s("e"), None), Ok(UserKey::Email(e)) if e == "e"));
    let e = User::get_user(None, None, None).unwrap_err();
    assert_eq!(e.message(), "You must pass either a username or user_id, email to delete");
}

#[test]
fn user_key_queries() {
    let k = UserKey::Username("u".to_string());
    assert_eq!((k.sql(), k.param()), ("SELECT * FROM users WHERE username = (?) LIMIT 1", "u".to_string()));
    let k = UserKey::Id(-12);
    assert_eq!((k.sql(), k.param()), ("SELECT * FROM users WHERE id = (?) LIMIT 1", "-12".to_string()));
    let k = UserKey::Email("e@x".to_string());
    assert_eq!((k.sql(), k.param()), ("SELECT * FROM users WHERE email = (?) LIMIT 1", "e@x".to_string()));
}

#[test]
fn from_lookup_reports_missing_user() {
    let u = User::from_lookup(UserKey::Id(2), Some(alice("h"))).unwrap();
    assert_eq!(u.username, "alice");
    assert_eq!(User::from_lookup(UserKey::Username("zed".to_string()), None).unwrap_err().message(),
        "no user found by username: zed");
    assert_eq!(User::from_lookup(UserKey::Id(5), None).unwrap_err().message(), "no user found by id: 5");
    assert_eq!(User::from_lookup(UserKey::Email("z@x".to_string()), None).unwrap_err().message(),
        "no user found by email: z@x");
}

#[test]
fn author_of_post() {
    let admin_post = Post { id: 1, content: "c".to_string(), author_id: 0, parent_id: 0 };
    match admin_post.author() {
        UserLookup::Resolved(u) => {
            assert_eq!((u.id, u.email.as_str(), u.username.as_str()), (0, "admin@domain.com", "admin"));
            assert_eq!((u.firstname.as_str(), u.lastname.as_str(), u.hash.as_str()), ("admin", "admin", "nohash"));
        }
        UserLookup::Fetch(_) => panic!("expected the admin"),
    }
    let p = Post { id: 1, content: "c".to_string(), author_id: 4, parent_id: 0 };
    assert!(matches!(p.author(), UserLookup::Fetch(UserKey::Id(4))));
}

#[test]
fn foreign_error_messages_are_nonempty() {
    let bad = bcrypt::verify("x", "garbage").unwrap_err();
    assert!(!ApiError::Hash(bad).message().is_empty());
}

#[test]
fn claims_or_error_passes_claims_through() {
    assert_eq!(User::claims_or_error(Ok("{\"id\":1}".to_string())).unwrap(), "{\"id\":1}");
    let bad = jsonwebtoken::decode::<serde_json::Value>(
        "x.y.z",
        &jsonwebtoken::DecodingKey::from_secret(b"k"),
        &jsonwebtoken::Validation::new(jsonwebtoken::Algorithm::HS256),
    )
    .unwrap_err();
    assert!(matches!(User::claims_or_error(Err(bad)), Err(ApiError::Token(_))));
}
