//! Errors that the copr service reports back.
use vstd::prelude::*;

verus! {

/// What the copr API answered when it refused an upload.
#[derive(Debug, Clone, Copy, PartialEq, Eq, Structural)]
pub enum ResponseError {
    InvalidRequest,
    AuthentificationFailure,
}

/// The text shown for a refused upload.
pub open spec fn response_message(e: ResponseError) -> Seq<char> {
    match e {
        ResponseError::InvalidRequest => "Invalid request"@,
        ResponseError::AuthentificationFailure => "Authentification failed"@,
    }
}

/// The short description of a refused upload: the HTTP status behind it.
pub open spec fn response_description(e: ResponseError) -> Seq<char> {
    match e {
        ResponseError::InvalidRequest => "BadRequest/400"@,
        ResponseError::AuthentificationFailure => "Forbidden/403"@,
    }
}

impl ResponseError {
    /// The human readable text of the error.
    pub fn message(&self) -> (s: &'static str)
        ensures
            s@ == response_message(*self),
    {
        match self {
            ResponseError::InvalidRequest => "Invalid request",
            ResponseError::AuthentificationFailure => "Authentification failed",
        }
    }

    /// The HTTP status that stands behind the error.
    pub fn description(&self) -> (s: &'static str)
        ensures
            s@ == response_description(*self),
    {
        match self {
            ResponseError::InvalidRequest => "BadRequest/400",
            ResponseError::AuthentificationFailure => "Forbidden/403",
        }
    }
}

/// A catch-all error without further detail.
#[derive(Debug, Clone, Copy, PartialEq, Eq, Structural)]
pub enum MiscError {
    X,
}

impl MiscError {
    /// The human readable text of the error.
    pub fn message(&self) -> (s: &'static str)
        ensures
            s@ == "X"@,
    {
        match self {
            MiscError::X => "X",
        }
    }

    /// The short description of the error.
    pub fn description(&self) -> (s: &'static str)
        ensures
            s@ == "X"@,
    {
        match self {
            MiscError::X => "X",
        }
    }
}

} // verus!
