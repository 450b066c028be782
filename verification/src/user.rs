//! The account that a client logs in with.
use vstd::prelude::*;
use crate::jid::{Jid, jid_parse};

verus! {

/// An XMPP account: its JID and its password.
#[derive(Clone, Debug)]
pub struct User {
    pub username: Jid,
    pub password: String,
}

impl User {
    /// The account with this JID (parsed by the jid crate) and password.
    /// The JID must parse.
    pub fn new(username: &str, password: &str) -> (r: User)
        requires
            jid_parse(username@) is Some,
        ensures
            Some(r.username@) == jid_parse(username@),
            r.password@ == password@,
    {
        let username = Jid::parse(username).unwrap();
        User { username, password: password.to_owned() }
    }

    /// Like `new`, but `None` where the JID does not parse.
    pub fn try_new(username: &str, password: &str) -> (r: Option<User>)
        ensures
            r is Some <==> jid_parse(username@) is Some,
            r is Some ==> Some(r->0.username@) == jid_parse(username@) && r->0.password@ == password@,
    {
        match Jid::parse(username) {
            Some(_) => Some(User::new(username, password)),
            None => None,
        }
    }

    /// A copy of this account.
    pub fn copy(&self) -> (r: User)
        ensures
            r.username@ == self.username@,
            r.password@ == self.password@,
    {
        User { username: self.username.copy(), password: self.password.clone() }
    }
}

} // verus!
