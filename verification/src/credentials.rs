//! The credentials with which a session is requested.

use vstd::prelude::*;
use crate::text::owned;

verus! {

/// A username and password pair. It cannot be changed once made, and it has no
/// textual form, so that it cannot end up in a log by accident.
#[derive(PartialEq, Eq)]
pub struct Credentials {
    username: String,
    password: String,
}

/// The model of [`Credentials`].
pub struct CredentialsView {
    pub username: Seq<char>,
    pub password: Seq<char>,
}

/// The pair of a username and a password.
pub open spec fn pair(username: Seq<char>, password: Seq<char>) -> CredentialsView {
    CredentialsView { username, password }
}

impl View for Credentials {
    type V = CredentialsView;

    closed spec fn view(&self) -> CredentialsView {
        CredentialsView { username: self.username@, password: self.password@ }
    }
}

impl Credentials {
    /// Makes the pair. Nothing is validated here, not even emptiness: whether
    /// credentials are acceptable is for the gateway to say.
    pub fn new(username: &str, password: &str) -> (credentials: Credentials)
        ensures
            credentials@ == pair(username@, password@),
    {
        Credentials { username: owned(username), password: owned(password) }
    }

    pub fn username(&self) -> (username: &str)
        ensures
            username@ == self@.username,
    {
        self.username.as_str()
    }

    pub fn password(&self) -> (password: &str)
        ensures
            password@ == self@.password,
    {
        self.password.as_str()
    }
}

impl Clone for Credentials {
    fn clone(&self) -> (copy: Credentials)
        ensures
            copy@ == self@,
    {
        Credentials { username: self.username.clone(), password: self.password.clone() }
    }
}

} // verus!
