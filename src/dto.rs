//! Request and response shapes at the service boundary.
use vstd::prelude::*;

use crate::error::UserError;
use crate::text::trimmed;
use crate::user::{
    email_acceptable, is_email_error, is_name_error, name_acceptable, normalized_email, Email,
    User, UserName, UserView,
};

verus! {

/// A request to create a user.
pub struct CreateUserDto {
    pub name: String,
    pub email: String,
}

/// A request to update a user; absent fields stay as they are.
pub struct UpdateUserDto {
    pub name: Option<String>,
    pub email: Option<String>,
}

/// A user as handed back to callers.
#[derive(Debug)]
pub struct UserResponseDto {
    pub id: u128,
    pub name: String,
    pub email: String,
    pub created_at: i64,
    pub updated_at: i64,
}

/// The envelope of every response: a success flag, the data on success and
/// the message on failure.
pub struct ApiResponse<T> {
    pub success: bool,
    pub data: Option<T>,
    pub error: Option<String>,
}

/// The page and page size that a listing request names.
pub struct PaginationQuery {
    pub page: Option<i64>,
    pub limit: Option<i64>,
}

/// Whether an optional name is absent or acceptable.
pub open spec fn opt_name_acceptable(n: Option<String>) -> bool {
    n matches Some(s) ==> name_acceptable(s@)
}

/// Whether an optional address is absent or acceptable.
pub open spec fn opt_email_acceptable(e: Option<String>) -> bool {
    e matches Some(s) ==> email_acceptable(s@)
}

/// What validation makes of an optional name.
pub open spec fn opt_trimmed(n: Option<String>) -> Option<Seq<char>> {
    match n {
        Some(s) => Some(trimmed(s@)),
        None => None,
    }
}

/// What validation makes of an optional address.
pub open spec fn opt_normalized(e: Option<String>) -> Option<Seq<char>> {
    match e {
        Some(s) => Some(normalized_email(s@)),
        None => None,
    }
}

/// Whether `e` is the error with which a create request of `name` and
/// `email` is refused: the name's error where the name fails, else the
/// address's.
pub open spec fn create_refusal(name: Seq<char>, email: Seq<char>, e: UserError) -> bool {
    if !name_acceptable(name) {
        is_name_error(e, name)
    } else {
        is_email_error(e, email)
    }
}

/// Whether `e` is the error with which an update request of `name` and
/// `email` is refused: the name's error where a given name fails, else the
/// given address's.
pub open spec fn update_refusal(name: Option<String>, email: Option<String>, e: UserError) -> bool {
    if !opt_name_acceptable(name) {
        is_name_error(e, name->0@)
    } else {
        is_email_error(e, email->0@)
    }
}

impl CreateUserDto {
    /// Validates both fields: the name first, then the address.
    pub fn to_domain(self) -> (r: Result<(UserName, Email), UserError>)
        ensures
            r is Ok <==> name_acceptable(self.name@) && email_acceptable(self.email@),
            r matches Ok((n, e)) ==> n@ == trimmed(self.name@) && e@ == normalized_email(
                self.email@,
            ),
            r matches Err(e) ==> create_refusal(self.name@, self.email@, e),
    {
        let name = match UserName::new(self.name) {
            Ok(n) => n,
            Err(e) => {
                return Err(e);
            },
        };
        let email = match Email::new(self.email) {
            Ok(e) => e,
            Err(e) => {
                return Err(e);
            },
        };
        Ok((name, email))
    }
}

impl UpdateUserDto {
    /// Validates each field that is present: the name first, then the
    /// address.
    pub fn to_domain(self) -> (r: Result<(Option<UserName>, Option<Email>), UserError>)
        ensures
            r is Ok <==> opt_name_acceptable(self.name) && opt_email_acceptable(self.email),
            r matches Ok((n, e)) ==> crate::user::opt_name(n) == opt_trimmed(self.name)
                && crate::user::opt_email(e) == opt_normalized(self.email),
            r matches Err(e) ==> update_refusal(self.name, self.email, e),
    {
        let name = match self.name {
            Some(n) => match UserName::new(n) {
                Ok(v) => Some(v),
                Err(e) => {
                    return Err(e);
                },
            },
            None => None,
        };
        let email = match self.email {
            Some(s) => match Email::new(s) {
                Ok(v) => Some(v),
                Err(e) => {
                    return Err(e);
                },
            },
            None => None,
        };
        Ok((name, email))
    }
}

impl View for UserResponseDto {
    type V = UserView;

    open spec fn view(&self) -> UserView {
        UserView {
            id: self.id,
            name: self.name@,
            email: self.email@,
            created_at: self.created_at,
            updated_at: self.updated_at,
        }
    }
}

/// The views of a sequence of responses.
pub open spec fn response_views(v: Seq<UserResponseDto>) -> Seq<UserView> {
    v.map_values(|d: UserResponseDto| d@)
}

impl UserResponseDto {
    /// The response that shows `user`.
    pub fn from_user(user: &User) -> (r: UserResponseDto)
        ensures
            r@ == user@,
    {
        UserResponseDto {
            id: user.id().as_u128(),
            name: user.name().as_str().to_owned(),
            email: user.email().as_str().to_owned(),
            created_at: user.created_at(),
            updated_at: user.updated_at(),
        }
    }
}

impl<T> ApiResponse<T> {
    /// A successful response carrying `data`.
    pub fn success(data: T) -> (r: ApiResponse<T>)
        ensures
            r.success,
            r.data == Some(data),
            r.error is None,
    {
        ApiResponse { success: true, data: Some(data), error: None }
    }

    /// A failed response carrying `message`.
    pub fn error(message: String) -> (r: ApiResponse<T>)
        ensures
            !r.success,
            r.data is None,
            r.error == Some(message),
    {
        ApiResponse { success: false, data: None, error: Some(message) }
    }
}

} // verus!
