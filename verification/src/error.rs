//! The ways in which an action can fail, and the text that reports each.

use vstd::prelude::*;
use vstd::string::StringExecFns;

verus! {

/// The step of writing the store at which it failed.
#[derive(Clone, Copy, Debug, PartialEq, Eq, Structural)]
pub enum StoreStep {
    /// No place for the store is known.
    Path,
    /// The directory of the store could not be made.
    Directory,
    /// The file could not be opened for writing.
    Open,
    /// The commands could not be written.
    Write,
}

/// Why an action did not take place.
#[derive(Clone, Debug, PartialEq, Eq)]
pub enum ActionError {
    /// More than an action and an identifier were given.
    ArgumentCount,
    /// The action needs an identifier, and none was given.
    MissingIdentifier,
    /// Two arguments were given, and the first names no action.
    UnknownAction(String),
    /// The identifier names no entry: no entry has that number (`numbered`), or
    /// none has that name.
    EntryNotFound { identifier: String, numbered: bool },
    /// An entry of that name exists already.
    DuplicateName(String),
    /// The new position is not a number from one on.
    InvalidPosition,
    /// The deletion was not confirmed.
    DeletionAborted,
    /// The store could not be written.
    PersistenceFailure(StoreStep),
    /// The shell that runs commands could not be started.
    ProcessSpawnFailure { shell: String },
}

/// An [`ActionError`] with its texts as sequences of characters.
pub enum ActionErrorView {
    ArgumentCount,
    MissingIdentifier,
    UnknownAction(Seq<char>),
    EntryNotFound { identifier: Seq<char>, numbered: bool },
    DuplicateName(Seq<char>),
    InvalidPosition,
    DeletionAborted,
    PersistenceFailure(StoreStep),
    ProcessSpawnFailure { shell: Seq<char> },
}

impl View for ActionError {
    type V = ActionErrorView;

    open spec fn view(&self) -> ActionErrorView {
        match *self {
            ActionError::ArgumentCount => ActionErrorView::ArgumentCount,
            ActionError::MissingIdentifier => ActionErrorView::MissingIdentifier,
            ActionError::UnknownAction(action) => ActionErrorView::UnknownAction(action@),
            ActionError::EntryNotFound { identifier, numbered } => ActionErrorView::EntryNotFound {
                identifier: identifier@,
                numbered,
            },
            ActionError::DuplicateName(name) => ActionErrorView::DuplicateName(name@),
            ActionError::InvalidPosition => ActionErrorView::InvalidPosition,
            ActionError::DeletionAborted => ActionErrorView::DeletionAborted,
            ActionError::PersistenceFailure(step) => ActionErrorView::PersistenceFailure(step),
            ActionError::ProcessSpawnFailure { shell } => ActionErrorView::ProcessSpawnFailure { shell: shell@ },
        }
    }
}

/// How the help action is called: by its name alone at the prompt of an
/// interactive session, after the program's name on a command line.
pub open spec fn help_command(interactive: bool) -> Seq<char> {
    if interactive {
        "help"@
    } else {
        "se help"@
    }
}

/// The advice that ends the report of an entry that was not found.
pub open spec fn help_hint(interactive: bool) -> Seq<char> {
    " Run \""@ + help_command(interactive) + "\" for help."@
}

/// The text that reports `error`.
pub open spec fn message_text(error: ActionErrorView, interactive: bool) -> Seq<char> {
    match error {
        ActionErrorView::ArgumentCount => "Too many arguments."@,
        ActionErrorView::MissingIdentifier => "No command specified for action."@,
        ActionErrorView::UnknownAction(action) => "Unknown action \""@ + action + "\"."@,
        ActionErrorView::EntryNotFound { identifier, numbered } => if numbered {
            "Command #"@ + identifier + " does not exist."@ + help_hint(interactive)
        } else {
            "Command with name \""@ + identifier + "\" not found."@ + help_hint(interactive)
        },
        ActionErrorView::DuplicateName(name) => "Command with name \""@ + name + "\" already exists."@,
        ActionErrorView::InvalidPosition => "Invalid number."@,
        ActionErrorView::DeletionAborted => "Deletion aborted."@,
        ActionErrorView::PersistenceFailure(step) => match step {
            StoreStep::Path => "Failed to get save file path."@,
            StoreStep::Directory => "Failed to open or create save directory."@,
            StoreStep::Open => "Failed to open save file."@,
            StoreStep::Write => "Failed to write commands to save file."@,
        },
        ActionErrorView::ProcessSpawnFailure { shell } => "Failed to run "@ + shell + "."@,
    }
}

/// The three parts, one after the other.
fn framed(before: &str, middle: &str, after: &str) -> (text: String)
    ensures
        text@ == before@ + middle@ + after@,
{
    let mut text = String::from_str(before);
    text.append(middle);
    text.append(after);
    text
}

impl ActionError {
    /// The text that reports this error to the user.
    pub fn message(&self, interactive: bool) -> (text: String)
        ensures
            text@ == message_text(self@, interactive),
    {
        let help = if interactive { "help" } else { "se help" };
        match self {
            ActionError::ArgumentCount => String::from_str("Too many arguments."),
            ActionError::MissingIdentifier => String::from_str("No command specified for action."),
            ActionError::UnknownAction(action) => framed("Unknown action \"", action.as_str(), "\"."),
            ActionError::EntryNotFound { identifier, numbered } => {
                let mut text = if *numbered {
                    framed("Command #", identifier.as_str(), " does not exist.")
                } else {
                    framed("Command with name \"", identifier.as_str(), "\" not found.")
                };
                let hint = framed(" Run \"", help, "\" for help.");
                text.append(hint.as_str());
                text
            },
            ActionError::DuplicateName(name) => framed(
                "Command with name \"",
                name.as_str(),
                "\" already exists.",
            ),
            ActionError::InvalidPosition => String::from_str("Invalid number."),
            ActionError::DeletionAborted => String::from_str("Deletion aborted."),
            ActionError::PersistenceFailure(step) => match step {
                StoreStep::Path => String::from_str("Failed to get save file path."),
                StoreStep::Directory => String::from_str(
                    "Failed to open or create save directory.",
                ),
                StoreStep::Open => String::from_str("Failed to open save file."),
                StoreStep::Write => String::from_str("Failed to write commands to save file."),
            },
            ActionError::ProcessSpawnFailure { shell } => framed("Failed to run ", shell.as_str(), "."),
        }
    }
}

} // verus!
