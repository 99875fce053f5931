//! The tool's startup-fatal errors and their user-facing follow-ups.

use vstd::prelude::*;
use crate::auth::AuthTokenError;

verus! {

/// Why the tool could not start: either no token could be resolved, or
/// the server itself failed; the latter carries a description of the
/// failure.
#[derive(Debug)]
pub enum AppError {
    CouldntGetGhToken(AuthTokenError),
    CouldntRunServer(String),
}

/// The stable numeric support code for an error, where one exists.
/// Only undecodable credential-helper output carries one: that failure
/// is unexpected enough to be worth triaging precisely.
pub open spec fn spec_error_code(e: AppError) -> Option<u16> {
    match e {
        AppError::CouldntGetGhToken(AuthTokenError::GhOutputNotValidUtf8) => Some(100u16),
        _ => None,
    }
}

/// The follow-up text printed under an error, where one exists: how to
/// remedy a bad override value, a missing `gh`, or a `gh` that could
/// not be run.
pub open spec fn spec_follow_up_text(e: AppError) -> Option<Seq<char>> {
    match e {
        AppError::CouldntGetGhToken(AuthTokenError::EnvVarNotValid(_)) => Some(
            "Make sure the value of GH_TOKEN is valid"@,
        ),
        AppError::CouldntGetGhToken(AuthTokenError::CouldntFindGhExecutable) => Some(
            "ghx depends on gh (https://github.com/cli/cli) to obtain an auth token for you.\nIf you don't want to dely on gh, set the environment variable GH_TOKEN with a valid auth token."@,
        ),
        AppError::CouldntGetGhToken(AuthTokenError::CouldntExecuteGhCommand(_)) => Some(
            "Suggestion: Try running \"gh auth token\" yourself to see what's going wrong with it."@,
        ),
        _ => None,
    }
}

impl AppError {
    /// The stable numeric error code to print for support triage, if
    /// this error has one.
    pub fn code(&self) -> (r: Option<u16>)
        ensures
            r == spec_error_code(*self),
    {
        match self {
            AppError::CouldntGetGhToken(AuthTokenError::GhOutputNotValidUtf8) => Some(100),
            _ => None,
        }
    }

    /// The remediation text to print under this error, if it has one.
    pub fn follow_up(&self) -> (r: Option<String>)
        ensures
            spec_follow_up_text(*self) matches Some(t) ==> (r matches Some(s) && s@ == t),
            spec_follow_up_text(*self) is None ==> r is None,
    {
        match self {
            AppError::CouldntGetGhToken(AuthTokenError::EnvVarNotValid(_)) => Some(
                String::from_str("Make sure the value of GH_TOKEN is valid"),
            ),
            AppError::CouldntGetGhToken(AuthTokenError::CouldntFindGhExecutable) => Some(
                String::from_str(
                    "ghx depends on gh (https://github.com/cli/cli) to obtain an auth token for you.\nIf you don't want to dely on gh, set the environment variable GH_TOKEN with a valid auth token.",
                ),
            ),
            AppError::CouldntGetGhToken(AuthTokenError::CouldntExecuteGhCommand(_)) => Some(
                String::from_str(
                    "Suggestion: Try running \"gh auth token\" yourself to see what's going wrong with it.",
                ),
            ),
            _ => None,
        }
    }
}

} // verus!
