//! Who may register and who may sign in.
//!
//! The server looks the users up and compares the password; what follows
//! from what it found is decided here.

use crate::search::RedisIndex;
use crate::search::User;
use vstd::prelude::*;

verus! {

/// Why a registration or a sign-in is turned down.
#[derive(Clone, Copy, Debug, PartialEq, Eq, Structural)]
pub enum Refusal {
    /// A user with the email address exists already.
    EmailInUse,
    /// No user has the email address.
    NoUser,
    /// More than one user has the email address.
    SeveralUsers,
    /// The password is not the user's.
    WrongPassword,
}

impl Refusal {
    /// The sentence that tells of the refusal.
    pub open spec fn text(self, email: Seq<char>) -> Seq<char> {
        match self {
            Refusal::EmailInUse => "Email "@ + email + " is already in use"@,
            Refusal::NoUser => "No user found with email "@ + email,
            Refusal::SeveralUsers => "More than one user found with email "@ + email,
            Refusal::WrongPassword => "Incorrect password for user with email "@ + email,
        }
    }

    /// The sentence that tells of the refusal: see [`Refusal::text`].
    pub fn describe(self, email: &str) -> (s: String)
        ensures
            s@ == self.text(email@),
    {
        match self {
            Refusal::EmailInUse => {
                let mut s = "Email ".to_owned();
                s.append(email);
                s.append(" is already in use");
                s
            },
            Refusal::NoUser => {
                let mut s = "No user found with email ".to_owned();
                s.append(email);
                s
            },
            Refusal::SeveralUsers => {
                let mut s = "More than one user found with email ".to_owned();
                s.append(email);
                s
            },
            Refusal::WrongPassword => {
                let mut s = "Incorrect password for user with email ".to_owned();
                s.append(email);
                s
            },
        }
    }
}

/// Whether a registration goes ahead when `found` users have the email
/// address already: only when none has.
pub open spec fn registration_spec(found: nat) -> Option<Refusal> {
    if found > 0 {
        Some(Refusal::EmailInUse)
    } else {
        None
    }
}

/// The refusal of a result, if it is one.
pub open spec fn refusal_of(r: Result<(), Refusal>) -> Option<Refusal> {
    match r {
        Ok(_) => None,
        Err(refusal) => Some(refusal),
    }
}

/// Computes [`registration_spec`].
pub fn registration(found: usize) -> (r: Result<(), Refusal>)
    ensures
        refusal_of(r) == registration_spec(found as nat),
{
    if found > 0 {
        Err(Refusal::EmailInUse)
    } else {
        Ok(())
    }
}

/// Whether a sign-in goes ahead when `found` users have the email address
/// and the password was compared with that of the one user: only for one
/// user whose password it is.
pub open spec fn admission_spec(found: nat, password_matches: bool) -> Option<Refusal> {
    if found > 1 {
        Some(Refusal::SeveralUsers)
    } else if found == 0 {
        Some(Refusal::NoUser)
    } else if !password_matches {
        Some(Refusal::WrongPassword)
    } else {
        None
    }
}

/// Computes [`admission_spec`].
pub fn admission(found: usize, password_matches: bool) -> (r: Result<(), Refusal>)
    ensures
        refusal_of(r) == admission_spec(found as nat, password_matches),
{
    if found > 1 {
        Err(Refusal::SeveralUsers)
    } else if found == 0 {
        Err(Refusal::NoUser)
    } else if !password_matches {
        Err(Refusal::WrongPassword)
    } else {
        Ok(())
    }
}

/// The key of a new user's document: the prefix of the users' keys, then
/// what makes the key unique.
pub fn user_key(unique: &str) -> (key: String)
    ensures
        key@ == User::prefix_spec() + unique@,
{
    let mut key = User::prefix();
    key.append(unique);
    key
}

} // verus!
