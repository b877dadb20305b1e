//! The user record.

use vstd::prelude::*;

verus! {

/// A user as stored. `password` is the hexadecimal SHA-256 digest of the
/// password, never the password itself.
#[derive(Debug, PartialEq, Eq)]
pub struct User {
    pub id: i64,
    pub username: String,
    pub password: String,
}

impl Clone for User {
    fn clone(&self) -> (copy: Self)
        ensures
            copy == *self,
    {
        User { id: self.id, username: self.username.clone(), password: self.password.clone() }
    }
}

} // verus!
