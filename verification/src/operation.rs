//! The four operations and the words that request them.

use crate::error::ToolError;
use crate::text::str_eq;
use vstd::prelude::*;

verus! {

/// What is to be done with every target directory.
#[derive(Clone, Copy, Debug, PartialEq, Eq, Structural)]
pub enum Operation {
    /// Put the directories aside: rename each to its marked path.
    Move,
    /// Bring the directories back: rename each marked path to its plain path.
    Restore,
    /// Create an empty directory at each marked path.
    Create,
    /// Remove the directory at each marked path with all that is in it.
    Delete,
}

impl Operation {
    /// The word that requests the operation.
    pub open spec fn name_spec(self) -> Seq<char> {
        match self {
            Operation::Move => "move"@,
            Operation::Restore => "restore"@,
            Operation::Create => "create"@,
            Operation::Delete => "delete"@,
        }
    }

    /// The operation that `name` requests, if it requests one. The match is
    /// exact: letter case counts and nothing is trimmed.
    pub open spec fn named(name: Seq<char>) -> Option<Operation> {
        if name == "move"@ {
            Some(Operation::Move)
        } else if name == "restore"@ {
            Some(Operation::Restore)
        } else if name == "create"@ {
            Some(Operation::Create)
        } else if name == "delete"@ {
            Some(Operation::Delete)
        } else {
            None
        }
    }

    /// Whether the operation renames directories, and so has a destination
    /// for each source. The other two act on the source alone.
    pub open spec fn renames_spec(self) -> bool {
        self is Move || self is Restore
    }

    /// Reads the operation that `name` requests, and refuses any other word.
    pub fn from_name(name: &str) -> (requested: Result<Operation, ToolError>)
        ensures
            requested == match Operation::named(name@) {
                Some(operation) => Ok::<Operation, ToolError>(operation),
                None => Err(ToolError::UnsupportedOperation),
            },
    {
        if str_eq(name, "move") {
            Ok(Operation::Move)
        } else if str_eq(name, "restore") {
            Ok(Operation::Restore)
        } else if str_eq(name, "create") {
            Ok(Operation::Create)
        } else if str_eq(name, "delete") {
            Ok(Operation::Delete)
        } else {
            Err(ToolError::UnsupportedOperation)
        }
    }

    /// The word that requests the operation.
    pub fn name(self) -> (word: &'static str)
        ensures
            word@ == self.name_spec(),
    {
        match self {
            Operation::Move => "move",
            Operation::Restore => "restore",
            Operation::Create => "create",
            Operation::Delete => "delete",
        }
    }

    /// Whether the operation renames directories.
    #[verifier::when_used_as_spec(renames_spec)]
    pub fn renames(self) -> (yes: bool)
        ensures
            yes == self.renames_spec(),
    {
        match self {
            Operation::Move | Operation::Restore => true,
            Operation::Create | Operation::Delete => false,
        }
    }
}

/// Every operation is requested by its own word and by no other operation's:
/// reading the word of an operation gives that operation back.
pub proof fn lemma_name_is_read_back(operation: Operation)
    ensures
        Operation::named(operation.name_spec()) == Some(operation),
{
    reveal_strlit("move");
    reveal_strlit("restore");
    reveal_strlit("create");
    reveal_strlit("delete");
    assert("restore"@[0] != "move"@[0]);
    assert("create"@[0] != "move"@[0]);
    assert("create"@[0] != "restore"@[0]);
    assert("delete"@[0] != "move"@[0]);
    assert("delete"@[0] != "restore"@[0]);
    assert("delete"@[0] != "create"@[0]);
}

/// A word requests an operation only if it is that operation's word.
pub proof fn lemma_read_only_from_own_name(name: Seq<char>, operation: Operation)
    requires
        Operation::named(name) == Some(operation),
    ensures
        name == operation.name_spec(),
{
}

} // verus!
