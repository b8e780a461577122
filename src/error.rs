use vstd::prelude::*;

verus! {

/// The error kinds of user operations.
#[derive(Debug, PartialEq, Eq)]
pub enum UserError {
    /// A name failed validation; the string says why.
    InvalidName(String),
    /// An email address failed validation; the string says why.
    InvalidEmail(String),
    /// The targeted user is not stored.
    NotFound,
    /// Another stored user already holds the email address.
    EmailAlreadyExists,
    /// The storage backend failed; the string is a short diagnostic.
    StorageError(String),
}

impl UserError {
    /// The message shown to a caller: the error kind and its diagnostic.
    pub fn message(&self) -> (r: String)
        ensures
            r@ == match self {
                UserError::InvalidName(m) => "Invalid name: "@ + m@,
                UserError::InvalidEmail(m) => "Invalid email: "@ + m@,
                UserError::NotFound => "User not found"@,
                UserError::EmailAlreadyExists => "Email already exists"@,
                UserError::StorageError(m) => "Storage error: "@ + m@,
            },
    {
        match self {
            UserError::InvalidName(m) => "Invalid name: ".to_owned().concat(m.as_str()),
            UserError::InvalidEmail(m) => "Invalid email: ".to_owned().concat(m.as_str()),
            UserError::NotFound => "User not found".to_owned(),
            UserError::EmailAlreadyExists => "Email already exists".to_owned(),
            UserError::StorageError(m) => "Storage error: ".to_owned().concat(m.as_str()),
        }
    }

    /// The HTTP status that reports the error: 400 for invalid input, 404
    /// for a missing user, 409 for a held address, 500 for a storage failure.
    pub fn status_code(&self) -> (r: u16)
        ensures
            r == match self {
                UserError::InvalidName(_) | UserError::InvalidEmail(_) => 400u16,
                UserError::NotFound => 404u16,
                UserError::EmailAlreadyExists => 409u16,
                UserError::StorageError(_) => 500u16,
            },
    {
        match self {
            UserError::InvalidName(_) | UserError::InvalidEmail(_) => 400,
            UserError::NotFound => 404,
            UserError::EmailAlreadyExists => 409,
            UserError::StorageError(_) => 500,
        }
    }
}

} // verus!
