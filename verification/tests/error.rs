use se::error::{ActionError, StoreStep};

#[test]
fn each_error_has_its_message() {
    assert_eq!(ActionError::ArgumentCount.message(false), "Too many arguments.");
    assert_eq!(ActionError::MissingIdentifier.message(false), "No command specified for action.");
    assert_eq!(
        ActionError::UnknownAction("frob".to_string()).message(false),
        "Unknown action \"frob\"."
    );
    assert_eq!(
        ActionError::DuplicateName("x".to_string()).message(true),
        "Command with name \"x\" already exists."
    );
    assert_eq!(ActionError::InvalidPosition.message(true), "Invalid number.");
    assert_eq!(ActionError::DeletionAborted.message(true), "Deletion aborted.");
    assert_eq!(
        ActionError::ProcessSpawnFailure { shell: "sh".to_string() }.message(false),
        "Failed to run sh."
    );
}

#[test]
fn an_entry_that_is_not_found_points_to_the_help() {
    let by_number = ActionError::EntryNotFound { identifier: "7".to_string(), numbered: true };
    assert_eq!(
        by_number.message(false),
        "Command #7 does not exist. Run \"se help\" for help."
    );
    assert_eq!(by_number.message(true), "Command #7 does not exist. Run \"help\" for help.");
    let by_name = ActionError::EntryNotFound { identifier: "build".to_string(), numbered: false };
    assert_eq!(
        by_name.message(false),
        "Command with name \"build\" not found. Run \"se help\" for help."
    );
    assert_eq!(
        by_name.message(true),
        "Command with name \"build\" not found. Run \"help\" for help."
    );
}

#[test]
fn each_step_of_writing_the_store_has_its_message() {
    let message = |step| ActionError::PersistenceFailure(step).message(false);
    assert_eq!(message(StoreStep::Path), "Failed to get save file path.");
    assert_eq!(message(StoreStep::Directory), "Failed to open or create save directory.");
    assert_eq!(message(StoreStep::Open), "Failed to open save file.");
    assert_eq!(message(StoreStep::Write), "Failed to write commands to save file.");
}
