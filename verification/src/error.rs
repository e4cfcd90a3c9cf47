//! The failure value that every fallible operation of the crate returns.

use vstd::prelude::*;

verus! {

/// Why an operation failed.
///
/// The first four kinds arise while a credential is checked; a caller that
/// answers a client must not let the client tell them apart.
#[derive(Clone, Copy, Debug, PartialEq, Eq, Structural)]
pub enum ErrorKind {
    /// The token is not a well-formed signed token, or its claims lack a
    /// required part.
    MalformedToken,
    /// The signature does not belong to the token under the verifying key.
    InvalidSignature,
    /// The token's expiry is not in the future.
    Expired,
    /// The token's identifier is not the one recorded for its subject.
    RevocationMismatch,
    /// The revocation store could not be read or written.
    StoreUnavailable,
    /// The system time could not be had, or an expiry computed from it does
    /// not fit the machine's integers.
    ClockError,
    /// The random source gave nothing, a key pair could not be generated, or
    /// a key could not sign.
    KeyFailure,
    /// A failure that a caller described in its own words.
    Other,
}

/// A failure: its kind and a text that describes it.
#[derive(Clone, Debug)]
pub struct Error {
    kind: ErrorKind,
    message: String,
}

impl ErrorKind {
    /// Whether a failure of this kind is one of those met while a credential
    /// is checked, which all look the same from outside.
    pub open spec fn is_verification(self) -> bool {
        self == ErrorKind::MalformedToken || self == ErrorKind::InvalidSignature || self
            == ErrorKind::Expired || self == ErrorKind::RevocationMismatch
    }

    /// Executable form of [`ErrorKind::is_verification`].
    pub fn verification(self) -> (b: bool)
        ensures
            b == self.is_verification(),
    {
        match self {
            ErrorKind::MalformedToken => true,
            ErrorKind::InvalidSignature => true,
            ErrorKind::Expired => true,
            ErrorKind::RevocationMismatch => true,
            _ => false,
        }
    }

    /// The fixed text that describes a failure of this kind.
    pub open spec fn text(self) -> Seq<char> {
        match self {
            ErrorKind::MalformedToken => "JWT error: malformed token"@,
            ErrorKind::InvalidSignature => "JWT error: invalid signature"@,
            ErrorKind::Expired => "JWT error: expired token"@,
            ErrorKind::RevocationMismatch => "JWT error: token identifier is not current"@,
            ErrorKind::StoreUnavailable => "Redis error: store unavailable"@,
            ErrorKind::ClockError => "System time error"@,
            ErrorKind::KeyFailure => "RSA error"@,
            ErrorKind::Other => Seq::empty(),
        }
    }
}

impl Error {
    /// The kind of the failure.
    pub closed spec fn kind_spec(&self) -> ErrorKind {
        self.kind
    }

    /// The text of the failure, as a sequence of characters.
    pub closed spec fn text(&self) -> Seq<char> {
        self.message@
    }

    /// A failure of kind [`ErrorKind::Other`] described by an owned text.
    pub fn new_string(message: String) -> (e: Self)
        ensures
            e.kind_spec() == ErrorKind::Other,
            e.text() == message@,
    {
        Self { kind: ErrorKind::Other, message }
    }

    /// A failure of kind [`ErrorKind::Other`] described by a literal.
    pub fn new_str(message: &'static str) -> (e: Self)
        ensures
            e.kind_spec() == ErrorKind::Other,
            e.text() == message@,
    {
        Self { kind: ErrorKind::Other, message: message.to_owned() }
    }

    /// Same as [`Error::new_string`].
    pub fn new(message: String) -> (e: Self)
        ensures
            e.kind_spec() == ErrorKind::Other,
            e.text() == message@,
    {
        Self::new_string(message)
    }

    /// The failure of the given kind, with the kind's fixed text.
    pub fn of_kind(kind: ErrorKind) -> (e: Self)
        ensures
            e.kind_spec() == kind,
            e.text() == kind.text(),
    {
        let message = match kind {
            ErrorKind::MalformedToken => "JWT error: malformed token",
            ErrorKind::InvalidSignature => "JWT error: invalid signature",
            ErrorKind::Expired => "JWT error: expired token",
            ErrorKind::RevocationMismatch => "JWT error: token identifier is not current",
            ErrorKind::StoreUnavailable => "Redis error: store unavailable",
            ErrorKind::ClockError => "System time error",
            ErrorKind::KeyFailure => "RSA error",
            ErrorKind::Other => "",
        };
        proof {
            reveal_strlit("");
        }
        Self { kind, message: message.to_owned() }
    }

    /// The kind of the failure.
    pub fn kind(&self) -> (k: ErrorKind)
        ensures
            k == self.kind_spec(),
    {
        self.kind
    }

    /// The text of the failure.
    pub fn message(&self) -> (s: String)
        ensures
            s@ == self.text(),
    {
        self.message.clone()
    }
}

} // verus!
