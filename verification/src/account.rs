//! A user account: who it belongs to, whether it is active, and how often
//! it has signed in.

use crate::scan::{position_of, text_after, text_before};
use vstd::prelude::*;

verus! {

/// An RGB colour.
#[derive(Debug)]
pub struct Color(pub i32, pub i32, pub i32);

/// A point in space.
#[derive(Debug)]
pub struct Point(pub i32, pub i32, pub i32);

/// What an account holds, as plain values.
pub struct UserView {
    pub active: bool,
    pub username: Seq<char>,
    pub email: Seq<char>,
    pub sign_in_count: nat,
}

/// A user account.
#[derive(Debug)]
pub struct User {
    active: bool,
    username: String,
    email: String,
    sign_in_count: u64,
}

impl View for User {
    type V = UserView;

    closed spec fn view(&self) -> UserView {
        UserView {
            active: self.active,
            username: self.username@,
            email: self.email@,
            sign_in_count: self.sign_in_count as nat,
        }
    }
}

/// The part of an address before its first `@`, or all of it where it has
/// none.
pub open spec fn local_part(address: Seq<char>) -> Seq<char> {
    address.take(position_of(address, '@', 0))
}

/// The part of an address between its first `@` and its second, or its end;
/// nothing where the address has no `@`.
pub open spec fn domain_part(address: Seq<char>) -> Option<Seq<char>> {
    let at = position_of(address, '@', 0);
    if at == address.len() {
        None
    } else {
        Some(local_part(address.skip(at + 1)))
    }
}

impl User {
    /// An active account that has signed in once.
    pub fn new(email: String, username: String) -> (user: User)
        ensures
            user@ == (UserView {
                active: true,
                username: username@,
                email: email@,
                sign_in_count: 1,
            }),
    {
        User { email, username, active: true, sign_in_count: 1 }
    }

    /// An account named after the part of its address before the first `@`.
    pub fn from_email(email: &str) -> (user: User)
        ensures
            user@ == (UserView {
                active: true,
                username: local_part(email@),
                email: email@,
                sign_in_count: 1,
            }),
    {
        let name = text_before(email, 0x40);
        User::new(email.to_owned(), name.to_owned())
    }

    /// Counts one more sign-in.
    pub fn promote(&mut self)
        requires
            old(self)@.sign_in_count < u64::MAX,
        ensures
            final(self)@ == (UserView {
                sign_in_count: old(self)@.sign_in_count + 1,
                ..old(self)@
            }),
    {
        self.sign_in_count += 1;
    }

    /// Marks the account active.
    pub fn activate(&mut self)
        ensures
            final(self)@ == (UserView { active: true, ..old(self)@ }),
    {
        self.active = true;
    }

    /// Marks the account inactive.
    pub fn deactivate(&mut self)
        ensures
            final(self)@ == (UserView { active: false, ..old(self)@ }),
    {
        self.active = false;
    }

    /// Whether the account is active.
    pub fn is_active(&self) -> (active: bool)
        ensures
            active == self@.active,
    {
        self.active
    }

    /// The part of the address between its first `@` and its second, or its
    /// end; nothing where the address has no `@`.
    pub fn email_domain(&self) -> (domain: Option<&str>)
        ensures
            domain is None <==> domain_part(self@.email) is None,
            domain matches Some(d) ==> domain_part(self@.email) == Some(d@),
    {
        match text_after(self.email.as_str(), 0x40) {
            None => None,
            Some(rest) => Some(text_before(rest, 0x40)),
        }
    }

    /// Gives up the account for its user name.
    pub fn into_username(self) -> (name: String)
        ensures
            name@ == self@.username,
    {
        self.username
    }
}

} // verus!
