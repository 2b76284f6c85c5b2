//! The client: a user's credentials.

use crate::request::Credentials;
use vstd::prelude::*;
use vstd::string::*;

verus! {

/// A user of the service. The client holds the credentials and nothing else.
pub struct Client {
    username: String,
    password: String,
}

impl View for Client {
    type V = Credentials;

    closed spec fn view(&self) -> Credentials {
        Credentials { username: self.username@, password: self.password@ }
    }
}

impl Client {
    /// A client for `username`. Nothing is checked and nothing is sent.
    pub fn new(username: &str, password: &str) -> (client: Client)
        ensures
            client@ == (Credentials { username: username@, password: password@ }),
    {
        Client { username: String::from_str(username), password: String::from_str(password) }
    }

    /// The user's name.
    pub fn username(&self) -> (name: &str)
        ensures
            name@ == self@.username,
    {
        self.username.as_str()
    }

    /// The user's password.
    pub fn password(&self) -> (word: &str)
        ensures
            word@ == self@.password,
    {
        self.password.as_str()
    }
}

} // verus!
