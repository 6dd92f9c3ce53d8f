//! The user record and the fields that a client supplies to create one.

use vstd::prelude::*;

verus! {

/// A user record as contracts see it: four texts.
pub struct UserView {
    pub username: Seq<char>,
    pub real_name: Seq<char>,
    pub email: Seq<char>,
    pub created_by: Seq<char>,
}

/// One entry of the directory.
///
/// `created_by` is the identity of the session that created the record. The
/// directory never changes it, and reads it only to decide who may delete the
/// record. Usernames need not be unique.
#[derive(Debug, PartialEq, Eq)]
pub struct User {
    pub username: String,
    pub real_name: String,
    pub email: String,
    pub created_by: String,
}

impl View for User {
    type V = UserView;

    open spec fn view(&self) -> UserView {
        UserView {
            username: self.username@,
            real_name: self.real_name@,
            email: self.email@,
            created_by: self.created_by@,
        }
    }
}

impl Clone for User {
    fn clone(&self) -> (copy: Self)
        ensures
            copy == *self,
    {
        User {
            username: self.username.clone(),
            real_name: self.real_name.clone(),
            email: self.email.clone(),
            created_by: self.created_by.clone(),
        }
    }
}

impl User {
    /// The text that confirms the creation of a record to the client.
    pub open spec fn confirmation_text(username: Seq<char>) -> Seq<char> {
        "User '"@ + username + "' created!"@
    }

    /// The confirmation sent after this record was created.
    pub fn confirmation(&self) -> (message: String)
        ensures
            message@ == Self::confirmation_text(self.username@),
    {
        let mut message = String::from_str("User '");
        message.append(self.username.as_str());
        message.append("' created!");
        message
    }
}

/// The views of a run of records, in order.
pub open spec fn views(users: Seq<User>) -> Seq<UserView> {
    users.map_values(|u: User| u@)
}

/// The fields of a create request as contracts see them.
pub struct CreateUserView {
    pub username: Seq<char>,
    pub real_name: Seq<char>,
    pub email: Seq<char>,
}

impl CreateUserView {
    /// The record that a create request yields when `created_by` makes it.
    pub open spec fn record(self, created_by: Seq<char>) -> UserView {
        UserView {
            username: self.username,
            real_name: self.real_name,
            email: self.email,
            created_by,
        }
    }
}

/// What a client supplies to create a record. Any text is accepted in any
/// field.
#[derive(Debug, PartialEq, Eq)]
pub struct CreateUser {
    pub username: String,
    pub real_name: String,
    pub email: String,
}

impl View for CreateUser {
    type V = CreateUserView;

    open spec fn view(&self) -> CreateUserView {
        CreateUserView {
            username: self.username@,
            real_name: self.real_name@,
            email: self.email@,
        }
    }
}

impl CreateUser {
    /// Builds the record of this request, owned by `created_by`.
    pub fn into_user(self, created_by: String) -> (user: User)
        ensures
            user@ == self@.record(created_by@),
    {
        User {
            username: self.username,
            real_name: self.real_name,
            email: self.email,
            created_by,
        }
    }
}

} // verus!
