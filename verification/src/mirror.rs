//! The backing store as a mirror of the collection.
//!
//! The model here follows a store through a run of mutations. After each of
//! them the caller writes the records that the mutation handed out, and that
//! write succeeds or fails. A failed write is reported and rolls nothing back,
//! so the backing store may fall behind the collection; the next successful
//! write brings it up to date. While every write succeeds, the two agree, and
//! a restart finds in the backing store what was in memory.

use crate::directory::after_create;
use crate::directory::after_delete;
use crate::directory::may_delete;
use crate::persistence::SaveFailure;
use crate::persistence::Stored;
use crate::user::views;
use crate::user::CreateUserView;
use crate::user::User;
use crate::user::UserView;
use vstd::prelude::*;

verus! {

/// A request to change the collection, as contracts see it.
pub enum Mutation {
    /// `by` asks for a record made of `fields`.
    Create { by: Seq<char>, fields: CreateUserView },
    /// `by` asks for the record at `index` to be removed.
    Delete { by: Seq<char>, index: int },
}

impl Mutation {
    /// The collection after the request was made on `records`.
    pub open spec fn apply(self, records: Seq<UserView>) -> Seq<UserView> {
        match self {
            Mutation::Create { by, fields } => after_create(records, by, fields),
            Mutation::Delete { by, index } => after_delete(records, by, index),
        }
    }

    /// Whether the request is granted on `records`, and so leaves the caller
    /// the collection to write.
    pub open spec fn granted(self, records: Seq<UserView>) -> bool {
        match self {
            Mutation::Create { .. } => true,
            Mutation::Delete { by, index } => may_delete(records, by, index) is Ok,
        }
    }
}

/// The collection in memory beside what the backing store holds.
pub struct Mirror {
    pub memory: Seq<UserView>,
    pub disk: Seq<UserView>,
}

impl Mirror {
    /// The backing store holds what is in memory.
    pub open spec fn in_step(self) -> bool {
        self.disk == self.memory
    }

    /// One request and the outcome of the write that followed it. A granted
    /// request whose write succeeded leaves the collection in the backing
    /// store; any other leaves the backing store as it was.
    pub open spec fn step(self, mutation: Mutation, saved: Result<(), SaveFailure>) -> Mirror {
        let memory = mutation.apply(self.memory);
        Mirror {
            memory,
            disk: if mutation.granted(self.memory) && saved is Ok {
                memory
            } else {
                self.disk
            },
        }
    }

    /// A run of requests, each with the outcome of its write, the earliest
    /// first.
    pub open spec fn run(self, steps: Seq<(Mutation, Result<(), SaveFailure>)>) -> Mirror
        decreases steps.len(),
    {
        if steps.len() == 0 {
            self
        } else {
            self.run(steps.drop_last()).step(steps.last().0, steps.last().1)
        }
    }
}

/// A request that is turned down changes neither the collection nor the
/// backing store.
pub proof fn lemma_refused_request_changes_nothing(
    mirror: Mirror,
    mutation: Mutation,
    saved: Result<(), SaveFailure>,
)
    requires
        !mutation.granted(mirror.memory),
    ensures
        mirror.step(mutation, saved) == mirror,
{
}

/// A granted request whose write succeeded leaves the backing store in step
/// with the collection, however far it had fallen behind.
pub proof fn lemma_successful_write_restores_step(mirror: Mirror, mutation: Mutation)
    requires
        mutation.granted(mirror.memory),
    ensures
        mirror.step(mutation, Ok(())).in_step(),
{
}

/// While every write succeeds, the backing store stays in step with the
/// collection: after any run of creates and deletes, granted or not, it
/// holds exactly what is in memory.
pub proof fn lemma_successful_writes_keep_step(
    mirror: Mirror,
    steps: Seq<(Mutation, Result<(), SaveFailure>)>,
)
    requires
        mirror.in_step(),
        forall|i: int| 0 <= i < steps.len() ==> (#[trigger] steps[i]).1 is Ok,
    ensures
        mirror.run(steps).in_step(),
    decreases steps.len(),
{
    if steps.len() > 0 {
        let earlier = steps.drop_last();
        assert forall|i: int| 0 <= i < earlier.len() implies (#[trigger] earlier[i]).1 is Ok by {
            assert(earlier[i] == steps[i]);
        }
        lemma_successful_writes_keep_step(mirror, earlier);
        assert(steps.last() == steps[steps.len() - 1]);
    }
}

/// A restart after a run of successful writes loses nothing: the records
/// found in the backing store load as the collection that was in memory.
pub proof fn lemma_restart_agrees_with_memory(
    mirror: Mirror,
    steps: Seq<(Mutation, Result<(), SaveFailure>)>,
    found: Vec<User>,
)
    requires
        mirror.in_step(),
        forall|i: int| 0 <= i < steps.len() ==> (#[trigger] steps[i]).1 is Ok,
        views(found@) == mirror.run(steps).disk,
    ensures
        Stored::Records(found).records() == mirror.run(steps).memory,
{
    lemma_successful_writes_keep_step(mirror, steps);
}

} // verus!
