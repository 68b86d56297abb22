use nvim_dirs::error::ToolError;
use nvim_dirs::operation::Operation;

#[test]
fn the_four_words_are_read() {
    assert_eq!(Operation::from_name("move"), Ok(Operation::Move));
    assert_eq!(Operation::from_name("restore"), Ok(Operation::Restore));
    assert_eq!(Operation::from_name("create"), Ok(Operation::Create));
    assert_eq!(Operation::from_name("delete"), Ok(Operation::Delete));
}

#[test]
fn other_words_are_refused() {
    for word in [
        "", "Move", "MOVE", " move", "move ", "move\n", "mov", "moves", "remove", "rename", "y",
        "restor", "created", "Delete", "m\u{6f}ve\u{0}",
    ] {
        assert_eq!(Operation::from_name(word), Err(ToolError::UnsupportedOperation), "{word:?}");
    }
}

#[test]
fn every_operation_is_read_back_from_its_name() {
    for operation in [Operation::Move, Operation::Restore, Operation::Create, Operation::Delete] {
        assert_eq!(Operation::from_name(operation.name()), Ok(operation));
    }
}

#[test]
fn names_are_the_words_of_the_command_line() {
    assert_eq!(Operation::Move.name(), "move");
    assert_eq!(Operation::Restore.name(), "restore");
    assert_eq!(Operation::Create.name(), "create");
    assert_eq!(Operation::Delete.name(), "delete");
}

#[test]
fn only_move_and_restore_rename() {
    assert!(Operation::Move.renames());
    assert!(Operation::Restore.renames());
    assert!(!Operation::Create.renames());
    assert!(!Operation::Delete.renames());
}

#[test]
fn errors_describe_themselves() {
    assert_eq!(ToolError::UnsupportedOperation.message(), "Operation not supported");
    assert_eq!(ToolError::OperationCancelled.message(), "Operation cancelled");
    assert_eq!(ToolError::HomeDirectoryNotFound.message(), "Home directory not found");
    assert_eq!(
        ToolError::FilesystemFailure { step: 2 }.message(),
        "Filesystem operation failed"
    );
}
