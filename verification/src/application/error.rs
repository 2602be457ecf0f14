//! The errors the application services report.
use vstd::prelude::*;
use vstd::string::StringExecFns;

use crate::domain::errors::{domain_error_text, DomainError};

verus! {

#[derive(Clone, Debug, PartialEq, Eq)]
pub enum ApplicationError {
    Domain(DomainError),
    InvalidRequest(String),
    AdapterUnavailable(&'static str),
    ExternalFailure { port: &'static str, detail: String },
}

/// The message of an application error; a domain error reads as itself.
pub open spec fn application_error_text(e: ApplicationError) -> Seq<char> {
    match e {
        ApplicationError::Domain(d) => domain_error_text(d),
        ApplicationError::InvalidRequest(message) => "invalid request: "@ + message@,
        ApplicationError::AdapterUnavailable(port) => "adapter unavailable: "@ + port@,
        ApplicationError::ExternalFailure { port, detail } => "external failure on "@ + port@
            + ": "@ + detail@,
    }
}

impl ApplicationError {
    /// The error's message, as `Display` writes it.
    pub fn to_string(&self) -> (r: String)
        ensures
            r@ == application_error_text(*self),
    {
        match self {
            ApplicationError::Domain(d) => d.to_string(),
            ApplicationError::InvalidRequest(message) => {
                let mut out = String::new();
                out.append("invalid request: ");
                out.append(message.as_str());
                assert(out@ =~= application_error_text(*self));
                out
            },
            ApplicationError::AdapterUnavailable(port) => {
                let mut out = String::new();
                out.append("adapter unavailable: ");
                out.append(port);
                assert(out@ =~= application_error_text(*self));
                out
            },
            ApplicationError::ExternalFailure { port, detail } => {
                let mut out = String::new();
                out.append("external failure on ");
                out.append(port);
                out.append(": ");
                out.append(detail.as_str());
                assert(out@ =~= application_error_text(*self));
                out
            },
        }
    }

    /// The underlying domain error, for a domain error; nothing otherwise.
    pub fn source(&self) -> (r: Option<&DomainError>)
        ensures
            self matches ApplicationError::Domain(d) ==> r == Some(d),
            !(self is Domain) ==> r is None,
    {
        match self {
            ApplicationError::Domain(d) => Some(d),
            _ => None,
        }
    }
}

impl From<DomainError> for ApplicationError {
    fn from(value: DomainError) -> (r: Self) {
        ApplicationError::Domain(value)
    }
}

impl vstd::std_specs::convert::FromSpecImpl<DomainError> for ApplicationError {
    open spec fn obeys_from_spec() -> bool {
        true
    }

    open spec fn from_spec(v: DomainError) -> Self {
        ApplicationError::Domain(v)
    }
}

} // verus!
