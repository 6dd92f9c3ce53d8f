//! A small user directory: a shared list of user records that clients can
//! enumerate, extend and prune, with sessions that bind an opaque token to a
//! claimed identity and an ownership rule on deletion.
//!
//! The crate holds the decisions only. Locks, the backing file and the
//! transport belong to the program around it: every operation here takes and
//! returns plain values, and an operation that has to be written through to
//! the backing store hands the caller the records to write and waits for the
//! outcome of that write.

pub mod directory;
pub mod error;
pub mod mirror;
pub mod persistence;
pub mod session;
pub mod user;

pub use crate::directory::DirectoryStore;
pub use crate::error::ApiError;
pub use crate::persistence::SaveFailure;
pub use crate::persistence::Stored;
pub use crate::persistence::WriteThrough;
pub use crate::session::Identity;
pub use crate::session::Presented;
pub use crate::session::SessionAuthority;
pub use crate::user::CreateUser;
pub use crate::user::User;
