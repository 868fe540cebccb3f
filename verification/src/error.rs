use vstd::prelude::*;

use crate::text::{decimal, push_decimal, push_str};
use crate::crypto::{bcrypt_error_text, jwt_error_text};

verus! {

/// Why a query or mutation was refused.
#[derive(Debug)]
pub enum ApiError {
    /// `isLoggedIn` without a session token.
    MissingToken,
    /// A mutation that needs a session token got none.
    NotLoggedIn,
    NoUsernameSupplied,
    NoUserFound,
    NoPasswordFound,
    PasswordInvalid,
    PasswordsDiffer,
    UserNotFoundByUsername(String),
    UserNotFoundById(i32),
    UserNotFoundByEmail(String),
    /// A user lookup without username, id or email.
    NoUserSelector,
    PostNotFound(i32),
    /// The password hashing library failed.
    Hash(bcrypt::BcryptError),
    /// The token library failed.
    Token(jsonwebtoken::errors::Error),
}

/// The text of an error that carries no error of another library.
pub open spec fn message_text(e: ApiError) -> Seq<char> {
    match e {
        ApiError::MissingToken => "False"@,
        ApiError::NotLoggedIn => "Not logged in"@,
        ApiError::NoUsernameSupplied => "no username supplied"@,
        ApiError::NoUserFound => "no user found"@,
        ApiError::NoPasswordFound => "no password found found"@,
        ApiError::PasswordInvalid => "password invalid"@,
        ApiError::PasswordsDiffer => "passwords are not the same"@,
        ApiError::UserNotFoundByUsername(u) => "no user found by username: "@ + u@,
        ApiError::UserNotFoundById(id) => "no user found by id: "@ + decimal(id as int),
        ApiError::UserNotFoundByEmail(m) => "no user found by email: "@ + m@,
        ApiError::NoUserSelector => "You must pass either a username or user_id, email to delete"@,
        ApiError::PostNotFound(id) => "No posts found with id "@ + decimal(id as int),
        _ => Seq::empty(),
    }
}

impl ApiError {
    /// Whether the error comes from another library (its text is that
    /// library's own).
    pub open spec fn is_foreign(&self) -> bool {
        self is Hash || self is Token
    }

    /// The message that the client sees.
    pub fn message(&self) -> (m: String)
        ensures
            !self.is_foreign() ==> m@ == message_text(*self),
    {
        match self {
            ApiError::MissingToken => "False".to_owned(),
            ApiError::NotLoggedIn => "Not logged in".to_owned(),
            ApiError::NoUsernameSupplied => "no username supplied".to_owned(),
            ApiError::NoUserFound => "no user found".to_owned(),
            ApiError::NoPasswordFound => "no password found found".to_owned(),
            ApiError::PasswordInvalid => "password invalid".to_owned(),
            ApiError::PasswordsDiffer => "passwords are not the same".to_owned(),
            ApiError::UserNotFoundByUsername(u) => {
                let mut m = "no user found by username: ".to_owned();
                push_str(&mut m, u.as_str());
                m
            },
            ApiError::UserNotFoundById(id) => {
                let mut m = "no user found by id: ".to_owned();
                push_decimal(&mut m, *id);
                m
            },
            ApiError::UserNotFoundByEmail(e) => {
                let mut m = "no user found by email: ".to_owned();
                push_str(&mut m, e.as_str());
                m
            },
            ApiError::NoUserSelector => "You must pass either a username or user_id, email to delete".to_owned(),
            ApiError::PostNotFound(id) => {
                let mut m = "No posts found with id ".to_owned();
                push_decimal(&mut m, *id);
                m
            },
            ApiError::Hash(e) => bcrypt_error_text(e),
            ApiError::Token(e) => jwt_error_text(e),
        }
    }
}

} // verus!
