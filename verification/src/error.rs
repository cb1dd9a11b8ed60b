//! The ways in which a request can fail.

use vstd::prelude::*;
use vstd::string::StringExecFns;

verus! {

/// Why a request was not answered.
#[derive(Debug)]
pub enum OAuthCardError {
    /// A required field of the request is missing or malformed.
    Invalid(String),
    /// The request, or a reply of the broker, could not be decoded.
    Parse(String),
    /// The broker cannot do what was asked in this environment.
    Unsupported(String),
}

/// An [`OAuthCardError`] with its detail as characters.
pub enum Flaw {
    Invalid(Seq<char>),
    Parse(Seq<char>),
    Unsupported(Seq<char>),
}

impl View for OAuthCardError {
    type V = Flaw;

    open spec fn view(&self) -> Flaw {
        match *self {
            OAuthCardError::Invalid(m) => Flaw::Invalid(m@),
            OAuthCardError::Parse(m) => Flaw::Parse(m@),
            OAuthCardError::Unsupported(m) => Flaw::Unsupported(m@),
        }
    }
}

/// The message of a flaw: what kind of flaw it is, then its detail.
pub open spec fn message_of(flaw: Flaw) -> Seq<char> {
    match flaw {
        Flaw::Invalid(detail) => "invalid input: "@ + detail,
        Flaw::Parse(detail) => "parse error: "@ + detail,
        Flaw::Unsupported(detail) => "unsupported: "@ + detail,
    }
}

impl OAuthCardError {
    /// Writes the error as its message.
    pub fn to_string(&self) -> (s: String)
        ensures
            s@ == message_of(self@),
    {
        match self {
            OAuthCardError::Invalid(m) => String::from_str("invalid input: ").concat(m.as_str()),
            OAuthCardError::Parse(m) => String::from_str("parse error: ").concat(m.as_str()),
            OAuthCardError::Unsupported(m) => String::from_str("unsupported: ").concat(
                m.as_str(),
            ),
        }
    }
}

} // verus!
