use vstd::prelude::*;

verus! {

/// The failures a request can end in, each with its HTTP status and body.
#[derive(Debug, Clone, PartialEq, Eq)]
pub enum ApiError {
    /// bcrypt could not produce a hash (500, "Password hashing error").
    PasswordHashing,
    /// The new user row could not be stored (500, "Database insertion error").
    DatabaseInsertion,
    /// A database lookup, a password check or token issuance failed (500, "Database Error").
    Database,
    /// Wrong user name or password (401, empty body).
    Unauthorized,
    /// The bearer token is absent, malformed or not accepted (401, "Invalid or missing token").
    InvalidToken,
    /// The token verifier refused the token, with its reason (401).
    TokenRejected(String),
    /// No trade has the requested id (404, empty body).
    NotFound,
}

/// The HTTP status of each failure.
pub open spec fn spec_status_code(e: ApiError) -> u16 {
    match e {
        ApiError::PasswordHashing => 500,
        ApiError::DatabaseInsertion => 500,
        ApiError::Database => 500,
        ApiError::Unauthorized => 401,
        ApiError::InvalidToken => 401,
        ApiError::TokenRejected(_) => 401,
        ApiError::NotFound => 404,
    }
}

/// The response body of each failure.
pub open spec fn spec_message(e: ApiError) -> Seq<char> {
    match e {
        ApiError::PasswordHashing => "Password hashing error"@,
        ApiError::DatabaseInsertion => "Database insertion error"@,
        ApiError::Database => "Database Error"@,
        ApiError::Unauthorized => Seq::empty(),
        ApiError::InvalidToken => "Invalid or missing token"@,
        ApiError::TokenRejected(reason) => reason@,
        ApiError::NotFound => Seq::empty(),
    }
}

/// Every failure's status: a rejected token is 401 whatever the reason given,
/// as are a wrong login and a missing or malformed token; a missing trade is
/// 404; hashing and database failures are 500. A rejected token's body is the
/// reason itself.
pub proof fn lemma_status_codes(reason: String)
    ensures
        spec_status_code(ApiError::TokenRejected(reason)) == 401,
        spec_message(ApiError::TokenRejected(reason)) == reason@,
        spec_status_code(ApiError::Unauthorized) == 401,
        spec_status_code(ApiError::InvalidToken) == 401,
        spec_status_code(ApiError::NotFound) == 404,
        spec_status_code(ApiError::PasswordHashing) == 500,
        spec_status_code(ApiError::DatabaseInsertion) == 500,
        spec_status_code(ApiError::Database) == 500,
        spec_message(ApiError::Unauthorized).len() == 0,
        spec_message(ApiError::NotFound).len() == 0,
{
}

impl ApiError {
    /// HTTP status code of the response this failure produces.
    pub fn status_code(&self) -> (code: u16)
        ensures
            code == spec_status_code(*self),
    {
        match self {
            ApiError::PasswordHashing => 500,
            ApiError::DatabaseInsertion => 500,
            ApiError::Database => 500,
            ApiError::Unauthorized => 401,
            ApiError::InvalidToken => 401,
            ApiError::TokenRejected(_) => 401,
            ApiError::NotFound => 404,
        }
    }

    /// Body of the response this failure produces.
    pub fn message(&self) -> (body: String)
        ensures
            body@ == spec_message(*self),
    {
        match self {
            ApiError::PasswordHashing => String::from_str("Password hashing error"),
            ApiError::DatabaseInsertion => String::from_str("Database insertion error"),
            ApiError::Database => String::from_str("Database Error"),
            ApiError::Unauthorized => String::new(),
            ApiError::InvalidToken => String::from_str("Invalid or missing token"),
            ApiError::TokenRejected(reason) => reason.clone(),
            ApiError::NotFound => String::new(),
        }
    }
}

} // verus!
