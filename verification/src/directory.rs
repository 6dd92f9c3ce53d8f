//! The directory store: the one owner of the user collection.
//!
//! The collection is a sequence in insertion order, and a record is addressed
//! by its position at the time of the request. Deleting a record moves every
//! later record one position down, so a position that a client remembered may
//! by then address another record, or none.
//!
//! Every mutation takes the store by `&mut`: whatever lock the caller guards
//! the store with, the operations run one after another, and a reader sees
//! the collection before a mutation or after it, never in between.

use crate::error::ApiError;
use crate::persistence::WriteThrough;
use crate::session::Identity;
use crate::user::views;
use crate::user::CreateUser;
use crate::user::CreateUserView;
use crate::user::User;
use crate::user::UserView;
use vstd::prelude::*;

verus! {

/// The collection after `created_by` has created a record from `fields`.
pub open spec fn after_create(
    records: Seq<UserView>,
    created_by: Seq<char>,
    fields: CreateUserView,
) -> Seq<UserView> {
    records.push(fields.record(created_by))
}

/// Whether `by` may delete the record at `index`: no record there is
/// `NotFound`, a record of somebody else is `Forbidden`.
pub open spec fn may_delete(records: Seq<UserView>, by: Seq<char>, index: int) -> Result<
    (),
    ApiError,
> {
    if !(0 <= index < records.len()) {
        Err(ApiError::NotFound)
    } else if records[index].created_by != by {
        Err(ApiError::Forbidden)
    } else {
        Ok(())
    }
}

/// The collection after `by` has asked to delete the record at `index`.
pub open spec fn after_delete(records: Seq<UserView>, by: Seq<char>, index: int) -> Seq<UserView> {
    if may_delete(records, by, index) is Ok {
        records.remove(index)
    } else {
        records
    }
}

/// The collection after a run of create requests, each a pair of the
/// identity that made it and its fields, the earliest first.
pub open spec fn after_creates(
    records: Seq<UserView>,
    calls: Seq<(Seq<char>, CreateUserView)>,
) -> Seq<UserView>
    decreases calls.len(),
{
    if calls.len() == 0 {
        records
    } else {
        after_create(after_creates(records, calls.drop_last()), calls.last().0, calls.last().1)
    }
}

/// The user collection. Its view is the sequence of its records.
pub struct DirectoryStore {
    users: Vec<User>,
}

impl View for DirectoryStore {
    type V = Seq<UserView>;

    closed spec fn view(&self) -> Seq<UserView> {
        views(self.users@)
    }
}

impl DirectoryStore {
    /// A store that starts from `users`.
    pub fn new(users: Vec<User>) -> (store: Self)
        ensures
            store@ == views(users@),
    {
        DirectoryStore { users }
    }

    /// The number of records.
    pub fn len(&self) -> (n: usize)
        ensures
            n == self@.len(),
    {
        self.users.len()
    }

    /// A copy of the collection as it stands, in insertion order.
    pub fn list(&self) -> (users: Vec<User>)
        ensures
            views(users@) == self@,
    {
        let mut users: Vec<User> = Vec::new();
        let mut i: usize = 0;
        while i < self.users.len()
            invariant
                i <= self.users.len(),
                users@ == self.users@.subrange(0, i as int),
            decreases self.users.len() - i,
        {
            users.push(self.users[i].clone());
            assert(users@ =~= self.users@.subrange(0, i + 1));
            i += 1;
        }
        assert(users@ =~= self.users@);
        users
    }

    /// Appends the record that `fields` describes, owned by `by`. The caller
    /// then writes the collection through.
    pub fn create(&mut self, by: &Identity, fields: CreateUser) -> (pending: WriteThrough<User>)
        ensures
            final(self)@ == after_create(old(self)@, by@, fields@),
            pending.reply@ == fields@.record(by@),
            views(pending.records@) == final(self)@,
    {
        let user = fields.into_user(by.username().clone());
        let reply = user.clone();
        self.users.push(user);
        assert(self@ =~= after_create(old(self)@, by@, fields@));
        WriteThrough { records: self.list(), reply }
    }

    /// Removes the record at `index` if `by` created it. The caller then
    /// writes the collection through. A request that is turned down changes
    /// nothing and leaves nothing to write.
    pub fn delete(&mut self, by: &Identity, index: usize) -> (outcome: Result<
        WriteThrough<()>,
        ApiError,
    >)
        ensures
            final(self)@ == after_delete(old(self)@, by@, index as int),
            match outcome {
                Ok(pending) => may_delete(old(self)@, by@, index as int) is Ok && views(
                    pending.records@,
                ) == final(self)@,
                Err(e) => may_delete(old(self)@, by@, index as int) == Err::<(), ApiError>(e),
            },
    {
        if index < self.users.len() {
            if self.users[index].created_by == *by.username() {
                self.users.remove(index);
                assert(self@ =~= old(self)@.remove(index as int));
                Ok(WriteThrough { records: self.list(), reply: () })
            } else {
                Err(ApiError::Forbidden)
            }
        } else {
            Err(ApiError::NotFound)
        }
    }
}

/// Creates never lose or reorder anything: after any run of create requests,
/// in whatever order the store admitted them, the collection is what it was
/// before, followed by one record for each request, in the order of the
/// requests, each made of its request's fields and owned by its request's
/// identity.
pub proof fn lemma_creates_append_in_call_order(
    records: Seq<UserView>,
    calls: Seq<(Seq<char>, CreateUserView)>,
)
    ensures
        after_creates(records, calls).len() == records.len() + calls.len(),
        forall|i: int| 0 <= i < records.len() ==> after_creates(records, calls)[i] == records[i],
        forall|i: int|
            0 <= i < calls.len() ==> after_creates(records, calls)[records.len() + i]
                == calls[i].1.record(calls[i].0),
    decreases calls.len(),
{
    if calls.len() > 0 {
        let earlier = calls.drop_last();
        lemma_creates_append_in_call_order(records, earlier);
        assert forall|i: int| 0 <= i < calls.len() implies after_creates(records, calls)[records.len()
            + i] == calls[i].1.record(calls[i].0) by {
            if i < earlier.len() {
                assert(after_creates(records, earlier)[records.len() + i] == earlier[i].1.record(
                    earlier[i].0,
                ));
            }
        }
    }
}

/// After any run of create requests that one identity made on an empty
/// store, the collection holds exactly the records of those requests, in the
/// order of the requests, and that identity owns each of them.
pub proof fn lemma_creates_by_one_identity(
    identity: Seq<char>,
    calls: Seq<(Seq<char>, CreateUserView)>,
)
    requires
        forall|i: int| 0 <= i < calls.len() ==> calls[i].0 == identity,
    ensures
        after_creates(Seq::empty(), calls) == calls.map_values(
            |call: (Seq<char>, CreateUserView)| call.1.record(identity),
        ),
        forall|i: int|
            0 <= i < calls.len() ==> after_creates(Seq::empty(), calls)[i].created_by == identity,
{
    lemma_creates_append_in_call_order(Seq::empty(), calls);
    assert(after_creates(Seq::empty(), calls) =~= calls.map_values(
        |call: (Seq<char>, CreateUserView)| call.1.record(identity),
    ));
}

/// A delete by the owner takes out the record at `index` and nothing else:
/// the records before it stay where they are, and every later record moves
/// one position down.
pub proof fn lemma_delete_closes_the_gap(records: Seq<UserView>, by: Seq<char>, index: int)
    requires
        0 <= index < records.len(),
        records[index].created_by == by,
    ensures
        may_delete(records, by, index) is Ok,
        after_delete(records, by, index).len() == records.len() - 1,
        forall|j: int| 0 <= j < index ==> after_delete(records, by, index)[j] == records[j],
        forall|j: int|
            index <= j < records.len() - 1 ==> after_delete(records, by, index)[j] == records[j
                + 1],
{
}

/// After a delete at `index`, a second delete at the same index addresses
/// the record that stood at `index + 1` before the first: it is decided as a
/// delete of that record would have been, and where it succeeds, both
/// records are gone.
pub proof fn lemma_repeated_delete_addresses_the_next(
    records: Seq<UserView>,
    first: Seq<char>,
    second: Seq<char>,
    index: int,
)
    requires
        0 <= index < records.len(),
        records[index].created_by == first,
    ensures
        may_delete(after_delete(records, first, index), second, index) == may_delete(
            records,
            second,
            index + 1,
        ),
        may_delete(records, second, index + 1) is Ok ==> after_delete(
            after_delete(records, first, index),
            second,
            index,
        ) == records.remove(index + 1).remove(index),
{
    if may_delete(records, second, index + 1) is Ok {
        assert(records.remove(index).remove(index) =~= records.remove(index + 1).remove(index));
    }
}

/// A delete of a record by anyone but the identity that created it is
/// forbidden and changes nothing.
pub proof fn lemma_foreign_delete_is_forbidden(records: Seq<UserView>, by: Seq<char>, index: int)
    requires
        0 <= index < records.len(),
        records[index].created_by != by,
    ensures
        may_delete(records, by, index) == Err::<(), ApiError>(ApiError::Forbidden),
        after_delete(records, by, index) == records,
{
}

/// A delete at an index that is not below the length of the collection finds
/// nothing and changes nothing, whatever the collection holds, and so too
/// where it holds nothing.
pub proof fn lemma_delete_past_the_end_is_not_found(
    records: Seq<UserView>,
    by: Seq<char>,
    index: int,
)
    requires
        index >= records.len(),
    ensures
        may_delete(records, by, index) == Err::<(), ApiError>(ApiError::NotFound),
        after_delete(records, by, index) == records,
{
}

} // verus!
