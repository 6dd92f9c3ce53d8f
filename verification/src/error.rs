//! The failure categories that the directory reports to its callers.

use vstd::prelude::*;

verus! {

/// Why a request was turned down.
#[derive(Clone, Copy, Debug, PartialEq, Eq, Structural)]
pub enum ApiError {
    /// The positional index addresses no record.
    NotFound,
    /// The record belongs to another identity.
    Forbidden,
    /// No session token was presented, or the presented one is unknown.
    Unauthenticated,
    /// The backing store could not be written.
    PersistenceFailure,
    /// Any other failure, such as records that could not be serialised.
    Internal,
}

impl ApiError {
    /// The HTTP status under which the failure is reported.
    pub open spec fn status(self) -> u16 {
        match self {
            ApiError::NotFound => 404,
            ApiError::Forbidden => 403,
            ApiError::Unauthenticated => 401,
            ApiError::PersistenceFailure => 500,
            ApiError::Internal => 500,
        }
    }

    /// The text shown to the client.
    pub open spec fn text(self) -> Seq<char> {
        match self {
            ApiError::NotFound => "User not found"@,
            ApiError::Forbidden => "You are not allowed to do this action"@,
            ApiError::Unauthenticated => "Missing or unknown session token"@,
            ApiError::PersistenceFailure => "Could not save the user list"@,
            ApiError::Internal => "Internal server error"@,
        }
    }

    /// The HTTP status of this failure.
    pub fn status_code(&self) -> (code: u16)
        ensures
            code == self.status(),
    {
        match self {
            ApiError::NotFound => 404,
            ApiError::Forbidden => 403,
            ApiError::Unauthenticated => 401,
            ApiError::PersistenceFailure => 500,
            ApiError::Internal => 500,
        }
    }

    /// The text that tells the client what went wrong.
    pub fn message(&self) -> (text: &'static str)
        ensures
            text@ == self.text(),
    {
        match self {
            ApiError::NotFound => "User not found",
            ApiError::Forbidden => "You are not allowed to do this action",
            ApiError::Unauthenticated => "Missing or unknown session token",
            ApiError::PersistenceFailure => "Could not save the user list",
            ApiError::Internal => "Internal server error",
        }
    }
}

/// Every failure category is told apart by its text alone: no two categories
/// share a message.
pub proof fn lemma_messages_are_distinct(a: ApiError, b: ApiError)
    requires
        a != b,
    ensures
        a.text() != b.text(),
{
    reveal_strlit("User not found");
    reveal_strlit("You are not allowed to do this action");
    reveal_strlit("Missing or unknown session token");
    reveal_strlit("Could not save the user list");
    reveal_strlit("Internal server error");
    // The five texts have five different lengths.
    assert("User not found"@.len() == 14);
    assert("You are not allowed to do this action"@.len() == 37);
    assert("Missing or unknown session token"@.len() == 32);
    assert("Could not save the user list"@.len() == 28);
    assert("Internal server error"@.len() == 21);
}

} // verus!
