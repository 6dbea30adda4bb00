//! The API's error type: its message, its HTTP status, and the conversions
//! from database and session errors.

use vstd::prelude::*;
use vstd::string::*;

use crate::model::DbError;
use crate::text::{spec_trim, trim};

verus! {

/// Every way a request can fail.
#[derive(Debug)]
pub enum ApiError {
    /// General error to return when it is unclear what went wrong.
    OtherISE(String),
    /// A concurrent task could not be joined.
    TaskJoin(String),
    /// A new entry conflicts with another entry in the database.
    UniqueViolation(String),
    ForeignKeyViolation(String),
    NotNullViolation(String),
    CheckViolation(String),
    /// The entry does not exist in the database.
    DbEntryNotFound(String),
    OtherDbError(String),
    /// The request is malformed.
    BadRequest(String),
    /// The client must log in first.
    UnauthorizedPleaseLogin,
    /// The client submitted an incorrect password.
    UnauthorizedIncorrectPassword,
    /// The username given does not match the logged-in user.
    ForbiddenUsernameDoesNotMatchSession,
    /// The user is banned.
    ForbiddenBanned,
    /// The caller must be a moderator.
    ForbiddenModeratorRequired,
    /// The item can no longer be edited or deleted.
    ForbiddenNotEditable,
    /// Payload validation failed; the report names what was invalid.
    InvalidPayload(String),
}

/// `prefix` followed by `e`.
fn prefixed(prefix: &str, e: &String) -> (r: String)
    ensures
        r@ == prefix@ + e@,
{
    let mut s = String::from_str(prefix);
    s.append(e.as_str());
    s
}

impl ApiError {
    /// The human-readable message of an error.
    pub open spec fn spec_message(&self) -> Seq<char> {
        match self {
            ApiError::OtherISE(e) => "Thor did a bad thing, ISE: "@ + e@,
            ApiError::TaskJoin(e) => "Concurrency Error: "@ + e@,
            ApiError::UniqueViolation(e) => "DbEntryAlreadyExists: "@ + e@,
            ApiError::ForeignKeyViolation(e) => "DbForeignKeyViolation: "@ + e@,
            ApiError::NotNullViolation(e) => "DbNotNullViolation: "@ + e@,
            ApiError::CheckViolation(e) => "DbCheckViolation: "@ + e@,
            ApiError::DbEntryNotFound(e) => "Not Found: "@ + e@,
            ApiError::OtherDbError(e) => "DbError: "@ + e@,
            ApiError::BadRequest(e) => "Invalid request submitted: "@ + e@,
            ApiError::UnauthorizedPleaseLogin => "Unauthorized: please log in"@,
            ApiError::UnauthorizedIncorrectPassword => "Unauthorized: Incorrect password"@,
            ApiError::ForbiddenBanned => "Unauthorized: User is banned"@,
            ApiError::ForbiddenUsernameDoesNotMatchSession => "Forbidden: provided username does not match session"@,
            ApiError::ForbiddenModeratorRequired => "Forbidden: Moderator only"@,
            ApiError::ForbiddenNotEditable => "Forbidden: item is no longer editable"@,
            ApiError::InvalidPayload(e) => "Invalid Payload: "@ + spec_trim(e@),
        }
    }

    /// The message shown to clients for this error.
    pub fn message(&self) -> (r: String)
        ensures
            r@ == self.spec_message(),
    {
        match self {
            ApiError::OtherISE(e) => prefixed("Thor did a bad thing, ISE: ", e),
            ApiError::TaskJoin(e) => prefixed("Concurrency Error: ", e),
            ApiError::UniqueViolation(e) => prefixed("DbEntryAlreadyExists: ", e),
            ApiError::ForeignKeyViolation(e) => prefixed("DbForeignKeyViolation: ", e),
            ApiError::NotNullViolation(e) => prefixed("DbNotNullViolation: ", e),
            ApiError::CheckViolation(e) => prefixed("DbCheckViolation: ", e),
            ApiError::DbEntryNotFound(e) => prefixed("Not Found: ", e),
            ApiError::OtherDbError(e) => prefixed("DbError: ", e),
            ApiError::BadRequest(e) => prefixed("Invalid request submitted: ", e),
            ApiError::UnauthorizedPleaseLogin => String::from_str("Unauthorized: please log in"),
            ApiError::UnauthorizedIncorrectPassword => String::from_str(
                "Unauthorized: Incorrect password",
            ),
            ApiError::ForbiddenBanned => String::from_str("Unauthorized: User is banned"),
            ApiError::ForbiddenUsernameDoesNotMatchSession => String::from_str(
                "Forbidden: provided username does not match session",
            ),
            ApiError::ForbiddenModeratorRequired => String::from_str("Forbidden: Moderator only"),
            ApiError::ForbiddenNotEditable => String::from_str(
                "Forbidden: item is no longer editable",
            ),
            ApiError::InvalidPayload(e) => {
                let t = trim(e.as_str());
                prefixed("Invalid Payload: ", &t)
            },
        }
    }

    /// The HTTP status code of an error.
    pub open spec fn spec_status_code(&self) -> u16 {
        match self {
            ApiError::OtherISE(_) => 500,
            ApiError::TaskJoin(_) => 500,
            ApiError::UniqueViolation(_) => 409,
            ApiError::ForeignKeyViolation(_) => 500,
            ApiError::NotNullViolation(_) => 500,
            ApiError::CheckViolation(_) => 500,
            ApiError::DbEntryNotFound(_) => 404,
            ApiError::OtherDbError(_) => 500,
            ApiError::BadRequest(_) => 400,
            ApiError::UnauthorizedPleaseLogin => 401,
            ApiError::UnauthorizedIncorrectPassword => 401,
            ApiError::ForbiddenUsernameDoesNotMatchSession => 403,
            ApiError::ForbiddenBanned => 403,
            ApiError::ForbiddenModeratorRequired => 403,
            ApiError::ForbiddenNotEditable => 403,
            ApiError::InvalidPayload(_) => 422,
        }
    }

    /// The HTTP status code sent for this error.
    pub fn status_code(&self) -> (r: u16)
        ensures
            r == self.spec_status_code(),
    {
        match self {
            ApiError::OtherISE(_) => 500,
            ApiError::TaskJoin(_) => 500,
            ApiError::UniqueViolation(_) => 409,
            ApiError::ForeignKeyViolation(_) => 500,
            ApiError::NotNullViolation(_) => 500,
            ApiError::CheckViolation(_) => 500,
            ApiError::DbEntryNotFound(_) => 404,
            ApiError::OtherDbError(_) => 500,
            ApiError::BadRequest(_) => 400,
            ApiError::UnauthorizedPleaseLogin => 401,
            ApiError::UnauthorizedIncorrectPassword => 401,
            ApiError::ForbiddenUsernameDoesNotMatchSession => 403,
            ApiError::ForbiddenBanned => 403,
            ApiError::ForbiddenModeratorRequired => 403,
            ApiError::ForbiddenNotEditable => 403,
            ApiError::InvalidPayload(_) => 422,
        }
    }

    /// The API error a database error becomes: the same kind, the same message.
    pub open spec fn spec_from_db(e: DbError) -> ApiError {
        match e {
            DbError::UniqueViolation(m) => ApiError::UniqueViolation(m),
            DbError::ForeignKeyViolation(m) => ApiError::ForeignKeyViolation(m),
            DbError::NotNullViolation(m) => ApiError::NotNullViolation(m),
            DbError::CheckViolation(m) => ApiError::CheckViolation(m),
            DbError::NotFound(m) => ApiError::DbEntryNotFound(m),
            DbError::Other(m) => ApiError::OtherDbError(m),
        }
    }

    /// Converts a database error.
    pub fn from_db(e: DbError) -> (r: ApiError)
        ensures
            r == Self::spec_from_db(e),
    {
        match e {
            DbError::UniqueViolation(m) => ApiError::UniqueViolation(m),
            DbError::ForeignKeyViolation(m) => ApiError::ForeignKeyViolation(m),
            DbError::NotNullViolation(m) => ApiError::NotNullViolation(m),
            DbError::CheckViolation(m) => ApiError::CheckViolation(m),
            DbError::NotFound(m) => ApiError::DbEntryNotFound(m),
            DbError::Other(m) => ApiError::OtherDbError(m),
        }
    }

    /// Converts a failure of the login layer: a session-store failure becomes an
    /// internal error; a failure of the authentication backend is passed on.
    pub fn from_login_error(e: LoginError) -> (r: ApiError)
        ensures
            match e {
                LoginError::Session => (r matches ApiError::OtherISE(m) && m@
                    == "Unknown axum_login session error"@),
                LoginError::Backend(inner) => r == inner,
            },
    {
        match e {
            LoginError::Session => ApiError::OtherISE(
                String::from_str("Unknown axum_login session error"),
            ),
            LoginError::Backend(inner) => inner,
        }
    }
}

/// A failure reported by the login layer.
#[derive(Debug)]
pub enum LoginError {
    /// The session store failed.
    Session,
    /// The authentication backend failed with an API error.
    Backend(ApiError),
}

impl From<DbError> for ApiError {
    fn from(e: DbError) -> (r: ApiError) {
        ApiError::from_db(e)
    }
}

impl vstd::std_specs::convert::FromSpecImpl<DbError> for ApiError {
    open spec fn obeys_from_spec() -> bool {
        true
    }

    open spec fn from_spec(e: DbError) -> ApiError {
        ApiError::spec_from_db(e)
    }
}

} // verus!
