//! Finding the home directory of the current user.

use crate::error::ToolError;
use vstd::prelude::*;

verus! {

/// Calls `env_home::env_home_dir`, which reads the home directory from the
/// environment of the process, and hands the path on as text. Nothing says
/// which directory comes back, nor that two calls agree. Assumed of the
/// outside function, and not proved: a path that it returns is never empty.
#[verifier::external_body]
pub(crate) fn env_home_dir() -> (home: Option<String>)
    ensures
        home matches Some(path) ==> path@.len() > 0,
{
    env_home::env_home_dir().and_then(|path| path.into_os_string().into_string().ok())
}

/// What a lookup found, as a sequence of characters.
pub open spec fn found_text(found: Option<String>) -> Option<Seq<char>> {
    match found {
        Some(path) => Some(path@),
        None => None,
    }
}

/// The home directory that a lookup found, or the error that says that it
/// found none.
pub fn require_home(found: Option<String>) -> (home: Result<String, ToolError>)
    ensures
        home == match found {
            Some(path) => Ok::<String, ToolError>(path),
            None => Err(ToolError::HomeDirectoryNotFound),
        },
{
    match found {
        Some(path) => Ok(path),
        None => Err(ToolError::HomeDirectoryNotFound),
    }
}

/// Looks the home directory of the current user up. The only way to fail is
/// `HomeDirectoryNotFound`, and a directory that was found has a name.
pub fn home_directory() -> (home: Result<String, ToolError>)
    ensures
        home matches Ok(path) ==> path@.len() > 0,
        home matches Err(error) ==> error == ToolError::HomeDirectoryNotFound,
{
    require_home(env_home_dir())
}

} // verus!
