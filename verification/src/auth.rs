//! Token resolution decisions.
//!
//! The tool authenticates to GitHub with a bearer token that is either
//! taken from the `GH_TOKEN` environment variable or read from the
//! standard output of `gh auth token`.  Reading the environment and
//! running the helper are left to the caller; this module decides, from
//! the outcome of each step, whether a token was resolved, whether the
//! helper must be consulted, and which error to report otherwise.

use vstd::prelude::*;

verus! {

/// Why no token could be resolved.  Each variant has a different
/// user-facing remediation, so callers must be able to tell them apart.
#[derive(Clone, Debug)]
pub enum AuthTokenError {
    /// The override environment variable was set but not valid unicode;
    /// the payload describes the lookup failure.
    EnvVarNotValid(String),
    /// No `gh` executable could be found on the search path.
    CouldntFindGhExecutable,
    /// `gh auth token` could not be spawned; the payload describes the
    /// invocation failure.
    CouldntExecuteGhCommand(String),
    /// `gh auth token` ran but exited unsuccessfully; the payload is its
    /// captured, trimmed standard error.
    GhCommandFailed(String),
    /// `gh auth token` succeeded but printed bytes that are not valid
    /// UTF-8.
    GhOutputNotValidUtf8,
}

/// What looking up the override environment variable yielded.
pub enum EnvTokenLookup {
    /// The variable is set to this text.
    Present(String),
    /// The variable is not set.
    Absent,
    /// The variable is set but its value is not valid unicode; the
    /// payload describes the failure.
    NotUnicode(String),
}

/// What to do after the environment lookup.
#[derive(Debug)]
pub enum EnvDecision {
    /// The override value is the token; the helper is not consulted.
    UseToken(String),
    /// No override: the credential helper must be run.
    RunHelper,
    /// Resolution failed already.
    Fail(AuthTokenError),
}

/// What running `gh auth token` yielded, with its captured streams
/// already decoded: `None` stands for output that was not valid UTF-8.
pub enum HelperOutcome {
    /// No `gh` executable was found.
    ExecutableNotFound,
    /// The executable was found but could not be run; the payload
    /// describes the invocation failure.
    InvocationFailed(String),
    /// The helper ran to completion.
    Completed { success: bool, stdout: Option<String>, stderr: Option<String> },
}

/// A character with the Unicode `White_Space` property, as
/// `char::is_whitespace` recognises it.
pub open spec fn spec_is_whitespace(c: char) -> bool {
    ||| c == ' '
    ||| ('\u{0009}' <= c && c <= '\u{000D}')
    ||| c == '\u{0085}'
    ||| c == '\u{00A0}'
    ||| c == '\u{1680}'
    ||| ('\u{2000}' <= c && c <= '\u{200A}')
    ||| c == '\u{2028}'
    ||| c == '\u{2029}'
    ||| c == '\u{202F}'
    ||| c == '\u{205F}'
    ||| c == '\u{3000}'
}

/// `s` with its leading whitespace removed.
pub open spec fn spec_trim_start(s: Seq<char>) -> Seq<char>
    decreases s.len(),
{
    if s.len() > 0 && spec_is_whitespace(s[0]) {
        spec_trim_start(s.drop_first())
    } else {
        s
    }
}

/// `s` with its trailing whitespace removed.
pub open spec fn spec_trim_end(s: Seq<char>) -> Seq<char>
    decreases s.len(),
{
    if s.len() > 0 && spec_is_whitespace(s.last()) {
        spec_trim_end(s.drop_last())
    } else {
        s
    }
}

/// `s` with leading and trailing whitespace removed, as `str::trim`
/// returns it.
pub open spec fn spec_trim(s: Seq<char>) -> Seq<char> {
    spec_trim_end(spec_trim_start(s))
}

/// Relies on `str::trim`: returns the slice with leading and trailing
/// characters that have the Unicode `White_Space` property removed.
#[verifier::external_body]
fn trim_to_string(s: &str) -> (r: String)
    ensures
        r@ == spec_trim(s@),
{
    s.trim().to_owned()
}

/// The decision the environment lookup dictates: a present value is the
/// token itself, an absent variable defers to the credential helper,
/// and an unreadable value is a failure of its own.
pub open spec fn spec_env_decision(lookup: EnvTokenLookup) -> EnvDecision {
    match lookup {
        EnvTokenLookup::Present(s) => EnvDecision::UseToken(s),
        EnvTokenLookup::Absent => EnvDecision::RunHelper,
        EnvTokenLookup::NotUnicode(m) => EnvDecision::Fail(
            AuthTokenError::EnvVarNotValid(m),
        ),
    }
}

/// Decides what the environment lookup's outcome means for token
/// resolution.
pub fn token_from_env(lookup: EnvTokenLookup) -> (r: EnvDecision)
    ensures
        r == spec_env_decision(lookup),
{
    match lookup {
        EnvTokenLookup::Present(s) => EnvDecision::UseToken(s),
        EnvTokenLookup::Absent => EnvDecision::RunHelper,
        EnvTokenLookup::NotUnicode(m) => EnvDecision::Fail(
            AuthTokenError::EnvVarNotValid(m),
        ),
    }
}

/// Law: a present override value is always used as the token, exactly
/// as it stands, and the credential helper is never consulted for it —
/// whatever the helper's availability or output would have been.
pub proof fn lemma_env_override_wins(s: String)
    ensures
        spec_env_decision(EnvTokenLookup::Present(s)) == EnvDecision::UseToken(s),
        spec_env_decision(EnvTokenLookup::Present(s)) != EnvDecision::RunHelper,
{
}

/// Turns the credential helper's outcome into a token or an error:
/// the trimmed standard output of a successful run is the token;
/// a failed run reports its trimmed standard error; output that is not
/// valid UTF-8 is its own error, as is not finding or not being able to
/// run the helper at all.
pub fn token_from_helper(outcome: HelperOutcome) -> (r: Result<String, AuthTokenError>)
    ensures
        outcome is ExecutableNotFound ==> (r matches Err(e)
            && e is CouldntFindGhExecutable),
        outcome matches HelperOutcome::InvocationFailed(m) ==> (r matches Err(e)
            && e matches AuthTokenError::CouldntExecuteGhCommand(p) && p == m),
        outcome matches HelperOutcome::Completed { success: true, stdout: Some(s), .. }
            ==> (r matches Ok(t) && t@ == spec_trim(s@)),
        outcome matches HelperOutcome::Completed { success: true, stdout: None, .. }
            ==> (r matches Err(e) && e is GhOutputNotValidUtf8),
        outcome matches HelperOutcome::Completed { success: false, stderr: Some(s), .. }
            ==> (r matches Err(e) && e matches AuthTokenError::GhCommandFailed(t)
            && t@ == spec_trim(s@)),
        outcome matches HelperOutcome::Completed { success: false, stderr: None, .. }
            ==> (r matches Err(e) && e matches AuthTokenError::GhCommandFailed(t)
            && t@ == spec_trim("<invalid stderr>"@)),
{
    match outcome {
        HelperOutcome::ExecutableNotFound => Err(AuthTokenError::CouldntFindGhExecutable),
        HelperOutcome::InvocationFailed(m) => Err(AuthTokenError::CouldntExecuteGhCommand(m)),
        HelperOutcome::Completed { success, stdout, stderr } => {
            if !success {
                let raw = match stderr {
                    Some(s) => trim_to_string(s.as_str()),
                    None => trim_to_string("<invalid stderr>"),
                };
                Err(AuthTokenError::GhCommandFailed(raw))
            } else {
                match stdout {
                    Some(s) => Ok(trim_to_string(s.as_str())),
                    None => Err(AuthTokenError::GhOutputNotValidUtf8),
                }
            }
        },
    }
}

} // verus!
