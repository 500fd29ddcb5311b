//! The one error type every call returns. The taxonomy keeps the failure
//! classes apart: a missing token is caught before any request is built, an
//! input that cannot be coerced to a number is caught before any request is
//! built, transport failures come from the surrounding application with the
//! HTTP status when one is known, and a body that does not match the expected
//! schema is reported separately from transport trouble.
use vstd::prelude::*;

verus! {

#[derive(Debug, PartialEq)]
pub enum ClientError {
    /// A call that needs the login-phase token was made before it was set.
    MissingLoginToken,
    /// A call that needs the session token was made before it was set.
    MissingAuthToken,
    /// A caller-supplied value that must be sent as a number could not be
    /// parsed as one.
    InputParse,
    /// The transport failed: connection, name resolution, TLS, timeout. The
    /// status is carried when the failure happened after a status line was
    /// read.
    Transport { status: Option<u16>, message: String },
    /// The response body did not parse as JSON of the expected shape.
    Deserialization,
    /// Anything else the surrounding application needs to surface.
    Other { message: String },
}

impl ClientError {
    /// The HTTP status code involved in the failure, when one is known.
    pub fn status(&self) -> (r: Option<u16>)
        ensures
            match self {
                ClientError::Transport { status, .. } => r == *status,
                _ => r is None,
            },
    {
        match self {
            ClientError::Transport { status, .. } => *status,
            _ => None,
        }
    }
}

} // verus!
