use vstd::prelude::*;

verus! {

#[verifier::external_type_specification]
#[verifier::external_body]
pub struct ExBcryptError(bcrypt::BcryptError);

#[verifier::external_type_specification]
#[verifier::external_body]
pub struct ExJwtError(jsonwebtoken::errors::Error);

/// What `bcrypt::verify(password, hash)` answers: `Some(b)` when it
/// returns `Ok(b)`, `None` when it returns an error (a hash that is not a
/// well-formed bcrypt string).
pub uninterp spec fn bcrypt_verdict(password: Seq<char>, hash: Seq<char>) -> Option<bool>;

/// The HS256 JSON Web Token that `jsonwebtoken::encode` produces for the
/// claims object written as `claims` (JSON text), signed with the secret
/// `key`, under the header `{"typ":"JWT","alg":"HS256"}`.
pub uninterp spec fn hs256_token(claims: Seq<char>, key: Seq<char>) -> Seq<char>;

/// Calls `bcrypt::verify`. It rehashes `password` with the cost and salt
/// read from `hash` and compares; the answer depends on the two arguments
/// alone, and is named `bcrypt_verdict`.
#[verifier::external_body]
pub(crate) fn bcrypt_verify(password: &str, hash: &str) -> (r: Result<bool, bcrypt::BcryptError>)
    ensures
        r matches Ok(b) ==> bcrypt_verdict(password@, hash@) == Some(b),
        r is Err ==> bcrypt_verdict(password@, hash@) is None,
{
    bcrypt::verify(password, hash)
}

/// The form of every hash that `bcrypt::hash` writes at the default cost:
/// 60 characters, starting `$2b$12$` (version 2b, cost 12, then 22
/// characters of salt and 31 of hash).
pub open spec fn is_default_cost_hash(h: Seq<char>) -> bool {
    h.len() == 60 && h.subrange(0, 7) == "$2b$12$"@
}

/// Calls `bcrypt::hash` with `bcrypt::DEFAULT_COST` (12). The salt is
/// random, so the hash itself is not stated; what is stated is its form
/// (bcrypt formats it as `$2b$12$` followed by salt and hash) and that it
/// verifies the password it was made from (bcrypt's own tests check
/// exactly this). It fails only when the system gives no random bytes,
/// which is left unsaid.
#[verifier::external_body]
pub(crate) fn bcrypt_hash(password: &str) -> (r: Result<String, bcrypt::BcryptError>)
    ensures
        r matches Ok(h) ==> bcrypt_verdict(password@, h@) == Some(true) && is_default_cost_hash(h@),
{
    bcrypt::hash(password, bcrypt::DEFAULT_COST)
}

/// Whether serde_json reads `text` as one JSON value (`RawValue::from_string`
/// accepts it).
pub uninterp spec fn json_value_text(text: Seq<char>) -> bool;

/// Calls `jsonwebtoken::encode` with an HS256 header and the secret `key`,
/// on the claims written as JSON text in `claims` (taken verbatim as a raw
/// JSON value). With an HMAC key and an HS256 header the only step that
/// can fail is reading `claims` as JSON, so it succeeds on every JSON
/// object of strings and whole numbers; a token it returns is
/// `hs256_token(claims, key)`.
#[verifier::external_body]
pub(crate) fn jwt_encode_hs256(claims: &str, key: &str) -> (r: Result<String, jsonwebtoken::errors::Error>)
    ensures
        r is Ok <==> json_value_text(claims@),
        crate::json::is_flat_json_object(claims@) ==> r is Ok,
        r matches Ok(t) ==> t@ == hs256_token(claims@, key@),
{
    let claims = serde_json::value::RawValue::from_string(claims.to_string())?;
    let header = jsonwebtoken::Header::new(jsonwebtoken::Algorithm::HS256);
    jsonwebtoken::encode(&header, &claims, &jsonwebtoken::EncodingKey::from_secret(key.as_bytes()))
}

/// The claims that the payload (second part) of `token` carries, as
/// serde_json writes that JSON value back as text.
pub uninterp spec fn jwt_claims(token: Seq<char>) -> Seq<char>;

/// Whether `token` is a header naming HS256, a payload, and the HS256
/// signature of the two under the secret `key`.
pub uninterp spec fn hs256_signed(token: Seq<char>, key: Seq<char>) -> bool;

/// Calls `jsonwebtoken::decode` with HS256 validation (the default: the
/// header must name HS256, the signature must match `key`, and an `exp`
/// claim must lie in the future) and hands back the claims as JSON text.
/// Whether the token is accepted depends on the clock, and is left
/// unsaid; a token it accepts is signed with `key`, and the text it hands
/// back is the token's payload, a function of the token alone.
#[verifier::external_body]
pub(crate) fn jwt_decode_hs256(token: &str, key: &str) -> (r: Result<String, jsonwebtoken::errors::Error>)
    ensures
        r matches Ok(c) ==> c@ == jwt_claims(token@) && hs256_signed(token@, key@),
{
    let validation = jsonwebtoken::Validation::new(jsonwebtoken::Algorithm::HS256);
    let key = jsonwebtoken::DecodingKey::from_secret(key.as_bytes());
    let data = jsonwebtoken::decode::<serde_json::Value>(token, &key, &validation)?;
    Ok(data.claims.to_string())
}

/// The `Display` text of a bcrypt error; not stated.
#[verifier::external_body]
pub(crate) fn bcrypt_error_text(e: &bcrypt::BcryptError) -> String {
    e.to_string()
}

/// The `Display` text of a token error; not stated.
#[verifier::external_body]
pub(crate) fn jwt_error_text(e: &jsonwebtoken::errors::Error) -> String {
    e.to_string()
}

} // verus!
