use vstd::prelude::*;

use crate::crypto::{
    bcrypt_hash, bcrypt_verdict, is_default_cost_hash, bcrypt_verify, hs256_signed, hs256_token, json_value_text, jwt_claims,
    jwt_decode_hs256, jwt_encode_hs256,
};
use crate::error::ApiError;
use crate::text::{decimal, json_string, push_decimal, push_json_string, push_str};

verus! {

/// A row of the `users` table.
#[derive(Debug)]
pub struct User {
    pub id: i32,
    pub email: String,
    pub hash: String,
    pub username: String,
    pub firstname: String,
    pub lastname: String,
}

/// The claims of the token issued at registration: the user's fields and
/// an expiry time.
#[derive(Debug)]
pub struct UserJWT {
    pub id: i32,
    pub email: String,
    pub hash: String,
    pub username: String,
    pub firstname: String,
    pub lastname: String,
    pub exp: i32,
}

/// The input of a registration.
#[derive(Debug)]
pub struct NewUser {
    pub email: String,
    pub username: String,
    pub password: String,
    pub password_confirm: String,
    pub firstname: String,
    pub lastname: String,
}

/// The values of a new `users` row: the registration input with the
/// password replaced by its bcrypt hash.
#[derive(Debug)]
pub struct UserRecord {
    pub username: String,
    pub email: String,
    pub hash: String,
    pub firstname: String,
    pub lastname: String,
}

/// The column by which a user is looked up, with the value sought.
#[derive(Debug)]
pub enum UserKey {
    Username(String),
    Id(i32),
    Email(String),
}

/// Where a user comes from: known without the database, or looked up.
#[derive(Debug)]
pub enum UserLookup {
    Resolved(User),
    Fetch(UserKey),
}

/// The JSON object of a user's claims, fields in declaration order.
pub open spec fn user_claims(u: User) -> Seq<char> {
    "{\"id\":"@ + decimal(u.id as int)
        + ",\"email\":"@ + json_string(u.email@)
        + ",\"hash\":"@ + json_string(u.hash@)
        + ",\"username\":"@ + json_string(u.username@)
        + ",\"firstname\":"@ + json_string(u.firstname@)
        + ",\"lastname\":"@ + json_string(u.lastname@)
        + "}"@
}

/// The JSON object of registration claims, fields in declaration order.
pub open spec fn user_jwt_claims(u: UserJWT) -> Seq<char> {
    "{\"id\":"@ + decimal(u.id as int)
        + ",\"email\":"@ + json_string(u.email@)
        + ",\"hash\":"@ + json_string(u.hash@)
        + ",\"username\":"@ + json_string(u.username@)
        + ",\"firstname\":"@ + json_string(u.firstname@)
        + ",\"lastname\":"@ + json_string(u.lastname@)
        + ",\"exp\":"@ + decimal(u.exp as int)
        + "}"@
}

/// The built-in administrator that authors the posts with author id 0.
pub open spec fn is_admin_user(u: User) -> bool {
    &&& u.id == 0
    &&& u.email@ == "admin@domain.com"@
    &&& u.firstname@ == "admin"@
    &&& u.lastname@ == "admin"@
    &&& u.username@ == "admin"@
    &&& u.hash@ == "nohash"@
}

/// The claims issued at registration for a new row: id 1, the row's
/// fields, and the largest `i32` as expiry.
pub open spec fn registration_claims(r: UserRecord) -> UserJWT {
    UserJWT {
        id: 1,
        email: r.email,
        hash: r.hash,
        username: r.username,
        firstname: r.firstname,
        lastname: r.lastname,
        exp: i32::MAX,
    }
}

/// The error of a lookup by `key` that found no row.
pub open spec fn not_found(key: UserKey) -> ApiError {
    match key {
        UserKey::Username(u) => ApiError::UserNotFoundByUsername(u),
        UserKey::Id(i) => ApiError::UserNotFoundById(i),
        UserKey::Email(e) => ApiError::UserNotFoundByEmail(e),
    }
}

/// What issuing a token for the claims text `claims` under `key` may
/// answer: a token exactly when the claims read as JSON, and then the
/// HS256 token of those claims; otherwise the token library's error.
pub open spec fn token_answers(claims: Seq<char>, key: Seq<char>, r: Result<String, ApiError>) -> bool {
    &&& (r is Ok <==> json_value_text(claims))
    &&& (crate::json::is_flat_json_object(claims) ==> r is Ok)
    &&& (r matches Ok(t) ==> t@ == hs256_token(claims, key))
    &&& (r matches Err(e) ==> e is Token)
}

/// What a login may answer once the row for the username was looked up
/// (`found`), given the password and the signing key.
pub open spec fn login_answers(found: Option<User>, password: Option<String>, key: Seq<char>, r: Result<String, ApiError>) -> bool {
    match found {
        None => r == Err::<String, ApiError>(ApiError::NoUserFound),
        Some(u) => match password {
            None => r == Err::<String, ApiError>(ApiError::NoPasswordFound),
            Some(p) => match bcrypt_verdict(p@, u.hash@) {
                None => r matches Err(e) && e is Hash,
                Some(valid) => if valid {
                    token_answers(user_claims(u), key, r)
                } else {
                    r == Err::<String, ApiError>(ApiError::PasswordInvalid)
                },
            },
        },
    }
}

/// The key used to sign and check session tokens: the configured secret,
/// or `secret` when none is configured.
pub fn signing_key(configured: Option<String>) -> (key: String)
    ensures
        configured matches Some(k) ==> key == k,
        configured is None ==> key@ == "secret"@,
{
    match configured {
        Some(k) => k,
        None => "secret".to_owned(),
    }
}

fn push_field(out: &mut String, name: &str, value: &str)
    ensures
        final(out)@ == old(out)@ + name@ + json_string(value@),
{
    push_str(out, name);
    push_json_string(out, value);
    assert(final(out)@ =~= old(out)@ + name@ + json_string(value@));
}

impl User {
    /// The built-in administrator.
    pub fn admin() -> (u: User)
        ensures
            is_admin_user(u),
    {
        User {
            id: 0,
            email: "admin@domain.com".to_owned(),
            firstname: "admin".to_owned(),
            lastname: "admin".to_owned(),
            username: "admin".to_owned(),
            hash: "nohash".to_owned(),
        }
    }

    /// The user's claims as a JSON object.
    pub fn claims_json(&self) -> (s: String)
        ensures
            s@ == user_claims(*self),
    {
        let mut s = "{\"id\":".to_owned();
        push_decimal(&mut s, self.id);
        push_field(&mut s, ",\"email\":", self.email.as_str());
        push_field(&mut s, ",\"hash\":", self.hash.as_str());
        push_field(&mut s, ",\"username\":", self.username.as_str());
        push_field(&mut s, ",\"firstname\":", self.firstname.as_str());
        push_field(&mut s, ",\"lastname\":", self.lastname.as_str());
        push_str(&mut s, "}");
        assert(s@ =~= user_claims(*self));
        s
    }

    /// A session token for this user: its claims signed with `key`.
    pub fn token(&self, key: &str) -> (r: Result<String, ApiError>)
        ensures
            token_answers(user_claims(*self), key@, r),
            r is Ok,
    {
        proof {
            lemma_user_claims_read_back(*self);
        }
        let claims = self.claims_json();
        match jwt_encode_hs256(claims.as_str(), key) {
            Ok(t) => Ok(t),
            Err(e) => Err(ApiError::Token(e)),
        }
    }

    /// The username a login looks up; a login without one is refused.
    pub fn login_username(username: Option<String>) -> (r: Result<String, ApiError>)
        ensures
            username matches Some(u) ==> r == Ok::<String, ApiError>(u),
            username is None ==> r == Err::<String, ApiError>(ApiError::NoUsernameSupplied),
    {
        match username {
            Some(u) => Ok(u),
            None => Err(ApiError::NoUsernameSupplied),
        }
    }

    /// Finishes a login once the row for the username has been looked up:
    /// no row, or no password, is refused; otherwise the password is
    /// checked against the stored bcrypt hash and, when it matches, a
    /// session token for the row is issued.
    pub fn login(found: Option<User>, password: Option<String>, key: &str) -> (r: Result<String, ApiError>)
        ensures
            login_answers(found, password, key@, r),
            (found matches Some(u) && password matches Some(p) && bcrypt_verdict(p@, u.hash@) == Some(true))
                ==> r is Ok,
    {
        match found {
            None => Err(ApiError::NoUserFound),
            Some(user) => match password {
                None => Err(ApiError::NoPasswordFound),
                Some(p) => {
                    proof {
                        lemma_user_claims_read_back(user);
                    }
                    let verdict = bcrypt_verify(p.as_str(), user.hash.as_str());
                    User::issue_token(&user, verdict, key)
                },
            },
        }
    }

    /// What a login answers for a given outcome of the password check:
    /// a token when the password matched, `PasswordInvalid` when it did
    /// not, the hashing library's error when the check failed.
    pub fn issue_token(user: &User, verdict: Result<bool, bcrypt::BcryptError>, key: &str) -> (r: Result<String, ApiError>)
        ensures
            verdict matches Err(e) ==> r == Err::<String, ApiError>(ApiError::Hash(e)),
            verdict == Ok::<bool, bcrypt::BcryptError>(false) ==> r == Err::<String, ApiError>(ApiError::PasswordInvalid),
            verdict == Ok::<bool, bcrypt::BcryptError>(true) ==> token_answers(user_claims(*user), key@, r),
            verdict == Ok::<bool, bcrypt::BcryptError>(true) ==> r is Ok,
    {
        match verdict {
            Err(e) => Err(ApiError::Hash(e)),
            Ok(valid) => {
                if valid {
                    user.token(key)
                } else {
                    Err(ApiError::PasswordInvalid)
                }
            },
        }
    }

    /// Checks a session token with `key` and hands back its claims as JSON
    /// text. Whether the token is accepted depends on its signature and on
    /// the clock (its `exp` claim); a refusal is the token library's error.
    /// An accepted token is signed with `key`, and its claims are handed
    /// back.
    pub fn from_token(token: &str, key: &str) -> (r: Result<String, ApiError>)
        ensures
            r matches Ok(c) ==> c@ == jwt_claims(token@) && hs256_signed(token@, key@),
            r matches Err(e) ==> e is Token,
    {
        let decoded = jwt_decode_hs256(token, key);
        User::claims_or_error(decoded)
    }

    /// What a token check answers for a given outcome of decoding: the
    /// claims when the token was accepted, else the token library's error.
    pub fn claims_or_error(decoded: Result<String, jsonwebtoken::errors::Error>) -> (r: Result<String, ApiError>)
        ensures
            decoded matches Ok(c) ==> r == Ok::<String, ApiError>(c),
            decoded matches Err(e) ==> r == Err::<String, ApiError>(ApiError::Token(e)),
    {
        match decoded {
            Ok(claims) => Ok(claims),
            Err(e) => Err(ApiError::Token(e)),
        }
    }

    /// Checks a registration and hashes its password; the row is then
    /// written by the caller. Differing passwords are refused before
    /// anything is hashed.
    pub fn create(user: NewUser) -> (r: Result<UserRecord, ApiError>)
        ensures
            user.password@ != user.password_confirm@ ==> r == Err::<UserRecord, ApiError>(ApiError::PasswordsDiffer),
            user.password@ == user.password_confirm@ ==> {
                &&& r matches Ok(rec) ==> {
                    &&& rec.username == user.username
                    &&& rec.email == user.email
                    &&& rec.firstname == user.firstname
                    &&& rec.lastname == user.lastname
                    &&& bcrypt_verdict(user.password@, rec.hash@) == Some(true)
                    &&& is_default_cost_hash(rec.hash@)
                    &&& (rec.hash@ != user.password@ || is_default_cost_hash(user.password@))
                }
                &&& r matches Err(e) ==> e is Hash
            },
    {
        if user.password != user.password_confirm {
            return Err(ApiError::PasswordsDiffer);
        }
        let hashed = bcrypt_hash(user.password.as_str());
        User::record(user, hashed)
    }

    /// The row of a registration, given the outcome of hashing its
    /// password.
    pub fn record(user: NewUser, hashed: Result<String, bcrypt::BcryptError>) -> (r: Result<UserRecord, ApiError>)
        ensures
            hashed matches Err(e) ==> r == Err::<UserRecord, ApiError>(ApiError::Hash(e)),
            hashed matches Ok(h) ==> r == Ok::<UserRecord, ApiError>(UserRecord {
                username: user.username,
                email: user.email,
                hash: h,
                firstname: user.firstname,
                lastname: user.lastname,
            }),
    {
        match hashed {
            Err(e) => Err(ApiError::Hash(e)),
            Ok(h) => Ok(UserRecord {
                username: user.username,
                email: user.email,
                hash: h,
                firstname: user.firstname,
                lastname: user.lastname,
            }),
        }
    }

    /// Picks the column of a user lookup: the username if given, else the
    /// id, else the email; with none of them the lookup is refused.
    pub fn get_user(username: Option<String>, email: Option<String>, user_id: Option<i32>) -> (r: Result<UserKey, ApiError>)
        ensures
            username matches Some(u) ==> r == Ok::<UserKey, ApiError>(UserKey::Username(u)),
            username is None ==> (user_id matches Some(i) ==> r == Ok::<UserKey, ApiError>(UserKey::Id(i))),
            (username is None && user_id is None) ==> (email matches Some(e) ==> r == Ok::<UserKey, ApiError>(UserKey::Email(e))),
            username is None && user_id is None && email is None ==> r == Err::<UserKey, ApiError>(ApiError::NoUserSelector),
    {
        match username {
            Some(u) => Ok(UserKey::Username(u)),
            None => match user_id {
                Some(i) => Ok(UserKey::Id(i)),
                None => match email {
                    Some(e) => Ok(UserKey::Email(e)),
                    None => Err(ApiError::NoUserSelector),
                },
            },
        }
    }

    /// Finishes a lookup by `key`, given the first row found.
    pub fn from_lookup(key: UserKey, row: Option<User>) -> (r: Result<User, ApiError>)
        ensures
            row matches Some(u) ==> r == Ok::<User, ApiError>(u),
            row is None ==> r == Err::<User, ApiError>(not_found(key)),
    {
        match row {
            Some(u) => Ok(u),
            None => match key {
                UserKey::Username(u) => Err(ApiError::UserNotFoundByUsername(u)),
                UserKey::Id(i) => Err(ApiError::UserNotFoundById(i)),
                UserKey::Email(e) => Err(ApiError::UserNotFoundByEmail(e)),
            },
        }
    }
}

impl UserKey {
    /// The query that looks a user up by this key.
    pub fn sql(&self) -> (q: &'static str)
        ensures
            self is Username ==> q@ == "SELECT * FROM users WHERE username = (?) LIMIT 1"@,
            self is Id ==> q@ == "SELECT * FROM users WHERE id = (?) LIMIT 1"@,
            self is Email ==> q@ == "SELECT * FROM users WHERE email = (?) LIMIT 1"@,
    {
        match self {
            UserKey::Username(_) => "SELECT * FROM users WHERE username = (?) LIMIT 1",
            UserKey::Id(_) => "SELECT * FROM users WHERE id = (?) LIMIT 1",
            UserKey::Email(_) => "SELECT * FROM users WHERE email = (?) LIMIT 1",
        }
    }

    /// The value bound to the query's parameter, as text.
    pub fn param(&self) -> (p: String)
        ensures
            self matches UserKey::Username(u) ==> p@ == u@,
            self matches UserKey::Id(i) ==> p@ == decimal(i as int),
            self matches UserKey::Email(e) ==> p@ == e@,
    {
        match self {
            UserKey::Username(u) => u.clone(),
            UserKey::Id(i) => crate::text::decimal_string(*i),
            UserKey::Email(e) => e.clone(),
        }
    }
}

impl UserJWT {
    /// The claims as a JSON object.
    pub fn claims_json(&self) -> (s: String)
        ensures
            s@ == user_jwt_claims(*self),
    {
        let mut s = "{\"id\":".to_owned();
        push_decimal(&mut s, self.id);
        push_field(&mut s, ",\"email\":", self.email.as_str());
        push_field(&mut s, ",\"hash\":", self.hash.as_str());
        push_field(&mut s, ",\"username\":", self.username.as_str());
        push_field(&mut s, ",\"firstname\":", self.firstname.as_str());
        push_field(&mut s, ",\"lastname\":", self.lastname.as_str());
        push_str(&mut s, ",\"exp\":");
        push_decimal(&mut s, self.exp);
        push_str(&mut s, "}");
        assert(s@ =~= user_jwt_claims(*self));
        s
    }
}

impl UserRecord {
    /// The claims issued for this new row.
    pub fn claims(&self) -> (c: UserJWT)
        ensures
            c == registration_claims(*self),
    {
        UserJWT {
            id: 1,
            hash: self.hash.clone(),
            email: self.email.clone(),
            username: self.username.clone(),
            firstname: self.firstname.clone(),
            lastname: self.lastname.clone(),
            exp: i32::MAX,
        }
    }

    /// The token issued once the row is written: the registration claims
    /// signed with `key`.
    pub fn token(&self, key: &str) -> (r: Result<String, ApiError>)
        ensures
            token_answers(user_jwt_claims(registration_claims(*self)), key@, r),
            r is Ok,
    {
        proof {
            lemma_registration_claims_read_back(registration_claims(*self));
        }
        let claims = self.claims().claims_json();
        match jwt_encode_hs256(claims.as_str(), key) {
            Ok(t) => Ok(t),
            Err(e) => Err(ApiError::Token(e)),
        }
    }
}

/// `row` is a `users` row written from `record`: the same username,
/// email, hash and names, under whatever id the table gave it.
pub open spec fn stored_row(record: UserRecord, row: User) -> bool {
    &&& row.username@ == record.username@
    &&& row.email@ == record.email@
    &&& row.hash@ == record.hash@
    &&& row.firstname@ == record.firstname@
    &&& row.lastname@ == record.lastname@
}

/// A registered user can log in: when `User::create` accepted `user` and
/// gave `record` (its fields and a hash that verifies the password, as
/// its contract states), the row written from `record` carries the
/// registration's username, email and names, and `User::login`, when it
/// finds that row and is given the registered password, answers with the
/// token for the row's claims.
pub proof fn lemma_registered_password_is_accepted(
    user: NewUser,
    record: UserRecord,
    row: User,
    key: Seq<char>,
    r: Result<String, ApiError>,
)
    requires
        user.password@ == user.password_confirm@,
        record.username == user.username,
        record.email == user.email,
        record.firstname == user.firstname,
        record.lastname == user.lastname,
        bcrypt_verdict(user.password@, record.hash@) == Some(true),
        stored_row(record, row),
        login_answers(Some(row), Some(user.password), key, r),
    ensures
        row.username@ == user.username@,
        row.email@ == user.email@,
        row.firstname@ == user.firstname@,
        row.lastname@ == user.lastname@,
        token_answers(user_claims(row), key, r),
        r != Err::<String, ApiError>(ApiError::PasswordInvalid),
        !(r matches Err(e) && e is Hash),
        r is Ok,
{
    lemma_user_claims_read_back(row);
}

proof fn lemma_user_keys_plain()
    ensures
        forall|k: int| 0 <= k < "id"@.len() ==> crate::json::is_plain(#[trigger] "id"@[k]),
        forall|k: int| 0 <= k < "email"@.len() ==> crate::json::is_plain(#[trigger] "email"@[k]),
        forall|k: int| 0 <= k < "hash"@.len() ==> crate::json::is_plain(#[trigger] "hash"@[k]),
        forall|k: int| 0 <= k < "username"@.len() ==> crate::json::is_plain(#[trigger] "username"@[k]),
        forall|k: int| 0 <= k < "firstname"@.len() ==> crate::json::is_plain(#[trigger] "firstname"@[k]),
        forall|k: int| 0 <= k < "lastname"@.len() ==> crate::json::is_plain(#[trigger] "lastname"@[k]),
{
    reveal_strlit("id");
    assert(forall|k: int| 0 <= k < "id"@.len() ==> crate::json::is_plain(#[trigger] "id"@[k])) by {}
    reveal_strlit("email");
    assert(forall|k: int| 0 <= k < "email"@.len() ==> crate::json::is_plain(#[trigger] "email"@[k])) by {}
    reveal_strlit("hash");
    assert(forall|k: int| 0 <= k < "hash"@.len() ==> crate::json::is_plain(#[trigger] "hash"@[k])) by {}
    reveal_strlit("username");
    assert(forall|k: int| 0 <= k < "username"@.len() ==> crate::json::is_plain(#[trigger] "username"@[k])) by {}
    reveal_strlit("firstname");
    assert(forall|k: int| 0 <= k < "firstname"@.len() ==> crate::json::is_plain(#[trigger] "firstname"@[k])) by {}
    reveal_strlit("lastname");
    assert(forall|k: int| 0 <= k < "lastname"@.len() ==> crate::json::is_plain(#[trigger] "lastname"@[k])) by {}
}

#[verifier::rlimit(30)]
proof fn lemma_user_claims_shape(u: User)
    ensures
        user_claims(u) == seq!['{'] + (crate::json::member_text("id"@, crate::text::decimal(u.id as int)) + (seq![','] + (crate::json::member_text("email"@, json_string(u.email@)) + (seq![','] + (crate::json::member_text("hash"@, json_string(u.hash@)) + (seq![','] + (crate::json::member_text("username"@, json_string(u.username@)) + (seq![','] + (crate::json::member_text("firstname"@, json_string(u.firstname@)) + (seq![','] + (crate::json::member_text("lastname"@, json_string(u.lastname@)) + seq!['}']))))))))))),
{
    reveal_strlit("{\"id\":");
    reveal_strlit("id");
    assert("{\"id\":"@ =~= seq!['{', '"'] + "id"@ + seq!['"', ':']);
    reveal_strlit(",\"email\":");
    reveal_strlit("email");
    assert(",\"email\":"@ =~= seq![',', '"'] + "email"@ + seq!['"', ':']);
    reveal_strlit(",\"hash\":");
    reveal_strlit("hash");
    assert(",\"hash\":"@ =~= seq![',', '"'] + "hash"@ + seq!['"', ':']);
    reveal_strlit(",\"username\":");
    reveal_strlit("username");
    assert(",\"username\":"@ =~= seq![',', '"'] + "username"@ + seq!['"', ':']);
    reveal_strlit(",\"firstname\":");
    reveal_strlit("firstname");
    assert(",\"firstname\":"@ =~= seq![',', '"'] + "firstname"@ + seq!['"', ':']);
    reveal_strlit(",\"lastname\":");
    reveal_strlit("lastname");
    assert(",\"lastname\":"@ =~= seq![',', '"'] + "lastname"@ + seq!['"', ':']);
    reveal_strlit("}");
    assert("}"@ =~= seq!['}']);
    assert(user_claims(u) =~= seq!['{'] + (crate::json::member_text("id"@, crate::text::decimal(u.id as int)) + (seq![','] + (crate::json::member_text("email"@, json_string(u.email@)) + (seq![','] + (crate::json::member_text("hash"@, json_string(u.hash@)) + (seq![','] + (crate::json::member_text("username"@, json_string(u.username@)) + (seq![','] + (crate::json::member_text("firstname"@, json_string(u.firstname@)) + (seq![','] + (crate::json::member_text("lastname"@, json_string(u.lastname@)) + seq!['}']))))))))))));
}

/// The claims of a `User` read back as exactly its fields: the text is a
/// JSON object whose members are, in order, each field with its value
/// (whole numbers as numbers, texts as strings), so the token library
/// always accepts it.
#[verifier::rlimit(30)]
pub proof fn lemma_user_claims_read_back(u: User)
    ensures
        crate::json::parse_flat_object(user_claims(u), 6) == Some(seq![("id"@, crate::json::JsonScalar::Int(u.id as int)), ("email"@, crate::json::JsonScalar::Str(u.email@)), ("hash"@, crate::json::JsonScalar::Str(u.hash@)), ("username"@, crate::json::JsonScalar::Str(u.username@)), ("firstname"@, crate::json::JsonScalar::Str(u.firstname@)), ("lastname"@, crate::json::JsonScalar::Str(u.lastname@))]),
        crate::json::is_flat_json_object(user_claims(u)),
{
    lemma_user_keys_plain();
    lemma_user_claims_shape(u);
    let m6 = crate::json::member_text("lastname"@, json_string(u.lastname@)) + seq!['}'];
    crate::json::lemma_string_value(u.lastname@, seq!['}']);
    crate::json::lemma_members_last("lastname"@, json_string(u.lastname@), crate::json::JsonScalar::Str(u.lastname@));
    let m5 = crate::json::member_text("firstname"@, json_string(u.firstname@)) + (seq![','] + m6);
    crate::json::lemma_string_value(u.firstname@, seq![','] + m6);
    crate::json::lemma_members_more("firstname"@, json_string(u.firstname@), crate::json::JsonScalar::Str(u.firstname@), m6, crate::json::parse_members(m6, 1)->0, 1);
    let m4 = crate::json::member_text("username"@, json_string(u.username@)) + (seq![','] + m5);
    crate::json::lemma_string_value(u.username@, seq![','] + m5);
    crate::json::lemma_members_more("username"@, json_string(u.username@), crate::json::JsonScalar::Str(u.username@), m5, crate::json::parse_members(m5, 2)->0, 2);
    let m3 = crate::json::member_text("hash"@, json_string(u.hash@)) + (seq![','] + m4);
    crate::json::lemma_string_value(u.hash@, seq![','] + m4);
    crate::json::lemma_members_more("hash"@, json_string(u.hash@), crate::json::JsonScalar::Str(u.hash@), m4, crate::json::parse_members(m4, 3)->0, 3);
    let m2 = crate::json::member_text("email"@, json_string(u.email@)) + (seq![','] + m3);
    crate::json::lemma_string_value(u.email@, seq![','] + m3);
    crate::json::lemma_members_more("email"@, json_string(u.email@), crate::json::JsonScalar::Str(u.email@), m3, crate::json::parse_members(m3, 4)->0, 4);
    let m1 = crate::json::member_text("id"@, crate::text::decimal(u.id as int)) + (seq![','] + m2);
    crate::json::lemma_integer_value(u.id as int, seq![','] + m2);
    crate::json::lemma_members_more("id"@, crate::text::decimal(u.id as int), crate::json::JsonScalar::Int(u.id as int), m2, crate::json::parse_members(m2, 5)->0, 5);
    assert((seq!['{'] + m1).drop_first() =~= m1);
    assert(crate::json::parse_flat_object(user_claims(u), 6) is Some);
}

proof fn lemma_registration_keys_plain()
    ensures
        forall|k: int| 0 <= k < "id"@.len() ==> crate::json::is_plain(#[trigger] "id"@[k]),
        forall|k: int| 0 <= k < "email"@.len() ==> crate::json::is_plain(#[trigger] "email"@[k]),
        forall|k: int| 0 <= k < "hash"@.len() ==> crate::json::is_plain(#[trigger] "hash"@[k]),
        forall|k: int| 0 <= k < "username"@.len() ==> crate::json::is_plain(#[trigger] "username"@[k]),
        forall|k: int| 0 <= k < "firstname"@.len() ==> crate::json::is_plain(#[trigger] "firstname"@[k]),
        forall|k: int| 0 <= k < "lastname"@.len() ==> crate::json::is_plain(#[trigger] "lastname"@[k]),
        forall|k: int| 0 <= k < "exp"@.len() ==> crate::json::is_plain(#[trigger] "exp"@[k]),
{
    reveal_strlit("id");
    assert(forall|k: int| 0 <= k < "id"@.len() ==> crate::json::is_plain(#[trigger] "id"@[k])) by {}
    reveal_strlit("email");
    assert(forall|k: int| 0 <= k < "email"@.len() ==> crate::json::is_plain(#[trigger] "email"@[k])) by {}
    reveal_strlit("hash");
    assert(forall|k: int| 0 <= k < "hash"@.len() ==> crate::json::is_plain(#[trigger] "hash"@[k])) by {}
    reveal_strlit("username");
    assert(forall|k: int| 0 <= k < "username"@.len() ==> crate::json::is_plain(#[trigger] "username"@[k])) by {}
    reveal_strlit("firstname");
    assert(forall|k: int| 0 <= k < "firstname"@.len() ==> crate::json::is_plain(#[trigger] "firstname"@[k])) by {}
    reveal_strlit("lastname");
    assert(forall|k: int| 0 <= k < "lastname"@.len() ==> crate::json::is_plain(#[trigger] "lastname"@[k])) by {}
    reveal_strlit("exp");
    assert(forall|k: int| 0 <= k < "exp"@.len() ==> crate::json::is_plain(#[trigger] "exp"@[k])) by {}
}

#[verifier::rlimit(60)]
proof fn lemma_registration_claims_shape(u: UserJWT)
    ensures
        user_jwt_claims(u) == seq!['{'] + (crate::json::member_text("id"@, crate::text::decimal(u.id as int)) + (seq![','] + (crate::json::member_text("email"@, json_string(u.email@)) + (seq![','] + (crate::json::member_text("hash"@, json_string(u.hash@)) + (seq![','] + (crate::json::member_text("username"@, json_string(u.username@)) + (seq![','] + (crate::json::member_text("firstname"@, json_string(u.firstname@)) + (seq![','] + (crate::json::member_text("lastname"@, json_string(u.lastname@)) + (seq![','] + (crate::json::member_text("exp"@, crate::text::decimal(u.exp as int)) + seq!['}']))))))))))))),
{
    reveal_strlit("{\"id\":");
    reveal_strlit("id");
    assert("{\"id\":"@ =~= seq!['{', '"'] + "id"@ + seq!['"', ':']);
    reveal_strlit(",\"email\":");
    reveal_strlit("email");
    assert(",\"email\":"@ =~= seq![',', '"'] + "email"@ + seq!['"', ':']);
    reveal_strlit(",\"hash\":");
    reveal_strlit("hash");
    assert(",\"hash\":"@ =~= seq![',', '"'] + "hash"@ + seq!['"', ':']);
    reveal_strlit(",\"username\":");
    reveal_strlit("username");
    assert(",\"username\":"@ =~= seq![',', '"'] + "username"@ + seq!['"', ':']);
    reveal_strlit(",\"firstname\":");
    reveal_strlit("firstname");
    assert(",\"firstname\":"@ =~= seq![',', '"'] + "firstname"@ + seq!['"', ':']);
    reveal_strlit(",\"lastname\":");
    reveal_strlit("lastname");
    assert(",\"lastname\":"@ =~= seq![',', '"'] + "lastname"@ + seq!['"', ':']);
    reveal_strlit(",\"exp\":");
    reveal_strlit("exp");
    assert(",\"exp\":"@ =~= seq![',', '"'] + "exp"@ + seq!['"', ':']);
    reveal_strlit("}");
    assert("}"@ =~= seq!['}']);
    assert(user_jwt_claims(u) =~= seq!['{'] + (crate::json::member_text("id"@, crate::text::decimal(u.id as int)) + (seq![','] + (crate::json::member_text("email"@, json_string(u.email@)) + (seq![','] + (crate::json::member_text("hash"@, json_string(u.hash@)) + (seq![','] + (crate::json::member_text("username"@, json_string(u.username@)) + (seq![','] + (crate::json::member_text("firstname"@, json_string(u.firstname@)) + (seq![','] + (crate::json::member_text("lastname"@, json_string(u.lastname@)) + (seq![','] + (crate::json::member_text("exp"@, crate::text::decimal(u.exp as int)) + seq!['}']))))))))))))));
}

/// The claims of a `UserJWT` read back as exactly its fields: the text is a
/// JSON object whose members are, in order, each field with its value
/// (whole numbers as numbers, texts as strings), so the token library
/// always accepts it.
#[verifier::rlimit(30)]
pub proof fn lemma_registration_claims_read_back(u: UserJWT)
    ensures
        crate::json::parse_flat_object(user_jwt_claims(u), 7) == Some(seq![("id"@, crate::json::JsonScalar::Int(u.id as int)), ("email"@, crate::json::JsonScalar::Str(u.email@)), ("hash"@, crate::json::JsonScalar::Str(u.hash@)), ("username"@, crate::json::JsonScalar::Str(u.username@)), ("firstname"@, crate::json::JsonScalar::Str(u.firstname@)), ("lastname"@, crate::json::JsonScalar::Str(u.lastname@)), ("exp"@, crate::json::JsonScalar::Int(u.exp as int))]),
        crate::json::is_flat_json_object(user_jwt_claims(u)),
{
    lemma_registration_keys_plain();
    lemma_registration_claims_shape(u);
    let m7 = crate::json::member_text("exp"@, crate::text::decimal(u.exp as int)) + seq!['}'];
    crate::json::lemma_integer_value(u.exp as int, seq!['}']);
    crate::json::lemma_members_last("exp"@, crate::text::decimal(u.exp as int), crate::json::JsonScalar::Int(u.exp as int));
    let m6 = crate::json::member_text("lastname"@, json_string(u.lastname@)) + (seq![','] + m7);
    crate::json::lemma_string_value(u.lastname@, seq![','] + m7);
    crate::json::lemma_members_more("lastname"@, json_string(u.lastname@), crate::json::JsonScalar::Str(u.lastname@), m7, crate::json::parse_members(m7, 1)->0, 1);
    let m5 = crate::json::member_text("firstname"@, json_string(u.firstname@)) + (seq![','] + m6);
    crate::json::lemma_string_value(u.firstname@, seq![','] + m6);
    crate::json::lemma_members_more("firstname"@, json_string(u.firstname@), crate::json::JsonScalar::Str(u.firstname@), m6, crate::json::parse_members(m6, 2)->0, 2);
    let m4 = crate::json::member_text("username"@, json_string(u.username@)) + (seq![','] + m5);
    crate::json::lemma_string_value(u.username@, seq![','] + m5);
    crate::json::lemma_members_more("username"@, json_string(u.username@), crate::json::JsonScalar::Str(u.username@), m5, crate::json::parse_members(m5, 3)->0, 3);
    let m3 = crate::json::member_text("hash"@, json_string(u.hash@)) + (seq![','] + m4);
    crate::json::lemma_string_value(u.hash@, seq![','] + m4);
    crate::json::lemma_members_more("hash"@, json_string(u.hash@), crate::json::JsonScalar::Str(u.hash@), m4, crate::json::parse_members(m4, 4)->0, 4);
    let m2 = crate::json::member_text("email"@, json_string(u.email@)) + (seq![','] + m3);
    crate::json::lemma_string_value(u.email@, seq![','] + m3);
    crate::json::lemma_members_more("email"@, json_string(u.email@), crate::json::JsonScalar::Str(u.email@), m3, crate::json::parse_members(m3, 5)->0, 5);
    let m1 = crate::json::member_text("id"@, crate::text::decimal(u.id as int)) + (seq![','] + m2);
    crate::json::lemma_integer_value(u.id as int, seq![','] + m2);
    crate::json::lemma_members_more("id"@, crate::text::decimal(u.id as int), crate::json::JsonScalar::Int(u.id as int), m2, crate::json::parse_members(m2, 6)->0, 6);
    assert((seq!['{'] + m1).drop_first() =~= m1);
    assert(crate::json::parse_flat_object(user_jwt_claims(u), 7) is Some);
}

} // verus!
