//! The account as the Godot front end stores it: plain texts.
use vstd::prelude::*;

verus! {

/// An account as the front end knows it: user name and password as typed.
#[derive(Clone, Debug)]
pub struct User {
    pub username: String,
    pub password: String,
}

impl User {
    /// The account with this user name and password.
    pub fn new(username: String, password: String) -> (r: User)
        ensures
            r.username == username,
            r.password == password,
    {
        User { username, password }
    }

    /// The placeholder account, `???` for both name and password.
    pub fn default() -> (r: User)
        ensures
            r.username@ == "???"@,
            r.password@ == "???"@,
    {
        User { username: "???".to_owned(), password: "???".to_owned() }
    }

    /// A copy of this account.
    pub fn copy(&self) -> (r: User)
        ensures
            r.username@ == self.username@,
            r.password@ == self.password@,
    {
        User { username: self.username.clone(), password: self.password.clone() }
    }
}

} // verus!
