//! The error taxonomy shared by every operation of the crate.

use vstd::prelude::*;
use vstd::string::StringExecFns;

verus! {

/// What can go wrong while talking to the portal.
///
/// Absence of an optional value (a missing attachment, an empty reply
/// list) is never an error; these variants cover transport failures,
/// the login ticket not being found, malformed JSON fields, required
/// HTML structure that is absent, and responses whose body lacks the
/// expected success marker.
#[derive(Debug, Clone, PartialEq, Eq)]
pub enum Error {
    /// The transport or HTTP layer failed; the payload is its report.
    Network(String),
    /// The login response did not contain a usable ticket.
    TicketNotFound,
    /// A JSON field could not be decoded; carries the field name and the
    /// raw value as text.
    Decode { field: String, raw: String },
    /// Required HTML structure was absent.
    Parse(String),
    /// The server answered, but its body lacked the expected success
    /// marker.
    DomainFailure(String),
}

/// The text that [`Error::message`] returns for an error.
pub open spec fn spec_message(e: Error) -> Seq<char> {
    match e {
        Error::Network(m) => "network error: "@ + m@,
        Error::TicketNotFound => "failed to login"@,
        Error::Decode { field, raw } => "failed to decode field "@ + field@ + ": "@ + raw@,
        Error::Parse(m) => m@,
        Error::DomainFailure(m) => m@,
    }
}

impl Error {
    /// A human-readable description of the error.
    pub fn message(&self) -> (r: String)
        ensures
            r@ == spec_message(*self),
    {
        match self {
            Error::Network(m) => {
                let mut s = String::from_str("network error: ");
                s.append(m.as_str());
                s
            },
            Error::TicketNotFound => String::from_str("failed to login"),
            Error::Decode { field, raw } => {
                let mut s = String::from_str("failed to decode field ");
                s.append(field.as_str());
                s.append(": ");
                s.append(raw.as_str());
                s
            },
            Error::Parse(m) => m.clone(),
            Error::DomainFailure(m) => m.clone(),
        }
    }
}

/// A `Result` alias where the `Err` case is [`Error`].
pub type LearnResult<T> = Result<T, Error>;

} // verus!
