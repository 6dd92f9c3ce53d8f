//! The persistence gateway, without its input and output.
//!
//! The backing store holds the whole collection and nothing else. It is read
//! once, when the process starts, and rewritten whole after every mutation.
//! Reading and writing are the caller's: this module says what a read means
//! for the directory, what has to be written, and what the outcome of a write
//! means for the request that caused it.

use crate::error::ApiError;
use crate::user::views;
use crate::user::User;
use crate::user::UserView;
use vstd::prelude::*;

verus! {

/// What the caller found in the backing store at start.
#[derive(Debug, PartialEq, Eq)]
pub enum Stored {
    /// There is no backing store yet, or it could not be read.
    Absent,
    /// The backing store holds something that is no list of user records.
    Unparseable,
    /// The backing store holds these records.
    Records(Vec<User>),
}

impl Stored {
    /// The collection that the directory starts from: the stored records, and
    /// none where the store is absent or unparseable.
    pub open spec fn records(self) -> Seq<UserView> {
        match self {
            Stored::Records(users) => views(users@),
            _ => Seq::empty(),
        }
    }
}

/// The initial collection. A missing or corrupt backing store is no failure:
/// it means that there is no data yet.
pub fn load(stored: Stored) -> (users: Vec<User>)
    ensures
        views(users@) == stored.records(),
{
    match stored {
        Stored::Records(users) => users,
        _ => {
            let users: Vec<User> = Vec::new();
            assert(views(users@) =~= Seq::<UserView>::empty());
            users
        },
    }
}

/// Why the records could not be saved.
#[derive(Clone, Copy, Debug, PartialEq, Eq, Structural)]
pub enum SaveFailure {
    /// The records could not be turned into text.
    Serialize,
    /// The backing store could not be written.
    Write,
}

impl SaveFailure {
    /// The failure category under which a failed save is reported.
    pub open spec fn category(self) -> ApiError {
        match self {
            SaveFailure::Serialize => ApiError::Internal,
            SaveFailure::Write => ApiError::PersistenceFailure,
        }
    }
}

/// A mutation that was applied in memory and has yet to be written through.
///
/// The caller overwrites the backing store with `records`, the whole
/// collection as it stands after the mutation, and hands the outcome of that
/// write to [`WriteThrough::finish`] before it answers the request.
pub struct WriteThrough<T> {
    /// The whole collection, to be written in place of what the store holds.
    pub records: Vec<User>,
    /// The answer to the request once the write has succeeded.
    pub reply: T,
}

/// The answer to a request whose write ended in `saved`: `reply` after a
/// successful write, the category of the failure after a failed one.
pub open spec fn settled<T>(reply: T, saved: Result<(), SaveFailure>) -> Result<T, ApiError> {
    match saved {
        Ok(_) => Ok(reply),
        Err(failure) => Err(failure.category()),
    }
}

impl<T> WriteThrough<T> {
    /// Settles the request with the outcome of the write. A failed write is
    /// reported and nothing is rolled back: the mutation stands in memory,
    /// and the next successful write brings the backing store up to date.
    pub fn finish(self, saved: Result<(), SaveFailure>) -> (outcome: Result<T, ApiError>)
        ensures
            outcome == settled(self.reply, saved),
    {
        match saved {
            Ok(_) => Ok(self.reply),
            Err(SaveFailure::Serialize) => Err(ApiError::Internal),
            Err(SaveFailure::Write) => Err(ApiError::PersistenceFailure),
        }
    }
}

} // verus!
