//! The ways in which a run ends without having done all its work.

use vstd::prelude::*;

verus! {

/// Why a run was given up.
#[derive(Clone, Copy, Debug, PartialEq, Eq, Structural)]
pub enum ToolError {
    /// The requested operation is none of `move`, `restore`, `create`, `delete`.
    UnsupportedOperation,
    /// The user did not answer the confirmation prompt with `y`.
    OperationCancelled,
    /// The home directory of the current user is not known.
    HomeDirectoryNotFound,
    /// The filesystem refused the action at `step`, counted from zero. The
    /// actions before it were carried out and are not undone; the actions
    /// after it were not attempted.
    FilesystemFailure { step: usize },
}

impl ToolError {
    /// The text that describes the error to the user.
    pub open spec fn message_spec(self) -> Seq<char> {
        match self {
            ToolError::UnsupportedOperation => "Operation not supported"@,
            ToolError::OperationCancelled => "Operation cancelled"@,
            ToolError::HomeDirectoryNotFound => "Home directory not found"@,
            ToolError::FilesystemFailure { .. } => "Filesystem operation failed"@,
        }
    }

    /// Describes the error to the user.
    pub fn message(&self) -> (text: &'static str)
        ensures
            text@ == self.message_spec(),
    {
        match self {
            ToolError::UnsupportedOperation => "Operation not supported",
            ToolError::OperationCancelled => "Operation cancelled",
            ToolError::HomeDirectoryNotFound => "Home directory not found",
            ToolError::FilesystemFailure { .. } => "Filesystem operation failed",
        }
    }
}

} // verus!
