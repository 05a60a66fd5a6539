//! Users and roles, and the requests that create them. Identifiers are the
//! 128-bit values of the UUIDs used on the wire.

use vstd::prelude::*;

verus! {

#[derive(Clone, Debug, PartialEq, Eq)]
pub struct User {
    pub id: u128,
    pub username: String,
}

#[derive(Clone, Debug, PartialEq, Eq)]
pub struct UserRole {
    pub id: u128,
    pub name: String,
    pub num_borrowable_books: i32,
}

#[derive(Clone, Debug, PartialEq, Eq)]
pub struct CreateUserRequest {
    pub username: String,
    pub user_role_id: u128,
}

#[derive(Clone, Debug, PartialEq, Eq)]
pub struct CreateUserRoleRequest {
    pub name: String,
    pub num_borrowable_books: i32,
}

/// A user together with the role.
#[derive(Clone, Debug, PartialEq, Eq)]
pub struct FullUser {
    pub id: u128,
    pub username: String,
    pub user_role: UserRole,
}

impl UserRole {
    /// The number of books that a user of this role may hold at once, or
    /// `None` where the recorded number is negative and so no allowance.
    pub open spec fn allowance(self) -> Option<u32> {
        if self.num_borrowable_books < 0 {
            None
        } else {
            Some(self.num_borrowable_books as u32)
        }
    }

    /// Reads the allowance of the role.
    pub fn max_borrowable(&self) -> (max: Option<u32>)
        ensures
            max == self.allowance(),
    {
        if self.num_borrowable_books < 0 {
            None
        } else {
            Some(self.num_borrowable_books as u32)
        }
    }
}

impl CreateUserRequest {
    /// The user that the request describes, under `id`, and the role to
    /// give.
    pub fn into_user(self, id: u128) -> (made: (User, u128))
        ensures
            made.0.id == id,
            made.0.username@ == self.username@,
            made.1 == self.user_role_id,
    {
        let role = self.user_role_id;
        (User { id, username: self.username }, role)
    }
}

impl CreateUserRoleRequest {
    /// The role that the request describes, under `id`.
    pub fn into_user_role(self, id: u128) -> (role: UserRole)
        ensures
            role.id == id,
            role.name@ == self.name@,
            role.num_borrowable_books == self.num_borrowable_books,
    {
        UserRole { id, name: self.name, num_borrowable_books: self.num_borrowable_books }
    }
}

} // verus!
