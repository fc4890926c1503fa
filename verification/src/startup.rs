//! What can end a run before the batch begins, and how a run ends.
//!
//! Nothing is asked of the remote service until the credential is there,
//! the list of repositories has been read and accepted as a whole, and a
//! command has been chosen. Once the batch has begun, the run ends the same
//! way whatever the outcomes were.

use vstd::prelude::*;
use vstd::string::*;
use crate::target::{refusal_text, MalformedEntry};

verus! {

/// The exit code of a run that came to the end of its batch.
pub const EXIT_COMPLETED: i32 = 0;

/// The exit code of a run that ended before its batch began.
pub const EXIT_FATAL: i32 = 1;

/// Why a run ended before its batch began.
#[derive(Debug, PartialEq, Eq)]
pub enum Fatal {
    /// No credential was given, neither explicitly nor as a fallback.
    MissingToken,
    /// The file with the list of repositories could not be read.
    UnreadableList { path: String, reason: String },
    /// An entry of the list is not a pair.
    MalformedEntry(MalformedEntry),
    /// No command was chosen.
    NoCommand,
}

/// The text that tells the operator why the run ended.
pub open spec fn fatal_text(fatal: Fatal) -> Seq<char> {
    match fatal {
        Fatal::MissingToken => "please make sure the GITHUB_TOKEN environment variable is set to a valid token value"@,
        Fatal::UnreadableList { path, reason } => "Aborting. Couldn't open "@ + path@ + ": "@
            + reason@,
        Fatal::MalformedEntry(refused) => refusal_text(refused.entry@),
        Fatal::NoCommand => "No command specified."@,
    }
}

impl Fatal {
    /// The text to show to the operator.
    pub fn message(&self) -> (r: String)
        ensures
            r@ == fatal_text(*self),
    {
        match self {
            Fatal::MissingToken => "please make sure the GITHUB_TOKEN environment variable is set to a valid token value".to_owned(),
            Fatal::UnreadableList { path, reason } => {
                let mut text = "Aborting. Couldn't open ".to_owned();
                text.append(path.as_str());
                text.append(": ");
                text.append(reason.as_str());
                text
            },
            Fatal::MalformedEntry(refused) => refused.message(),
            Fatal::NoCommand => "No command specified.".to_owned(),
        }
    }

    /// The exit code of the run: the same for every reason.
    pub fn exit_code(&self) -> (r: i32)
        ensures
            r == EXIT_FATAL,
    {
        EXIT_FATAL
    }
}

/// The credential of the run: the one that was given explicitly, and only
/// without it the fallback. Without either the run cannot begin.
pub fn choose_token(explicit: Option<String>, fallback: Option<String>) -> (r: Result<
    String,
    Fatal,
>)
    ensures
        r == (match (explicit, fallback) {
            (Some(token), _) => Ok::<String, Fatal>(token),
            (None, Some(token)) => Ok(token),
            (None, None) => Err(Fatal::MissingToken),
        }),
{
    match explicit {
        Some(token) => Ok(token),
        None => match fallback {
            Some(token) => Ok(token),
            None => Err(Fatal::MissingToken),
        },
    }
}

} // verus!
