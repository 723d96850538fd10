//! The dispatcher: from arguments to an action on the command list, and from
//! what the user answers to the change that is made.
//!
//! The dispatcher does not talk to the user, write files or start processes.
//! Each of its steps ends in a [`Request`], which says what has to happen
//! next; the answer goes to the step that the request names.

use vstd::prelude::*;
use crate::arg_parser::{string_to_arguments, tokens};
use crate::command_list::{moved, name_refused, names_unique, resolved, CommandList};
use crate::error::{ActionError, ActionErrorView, StoreStep};
use crate::external::{lowercase, trimmed};
use crate::number::{parse_usize, parsed};
use crate::screen::{
    confirm_text, exit_text, help_text, list_text, notice_text, run_text, show_confirm,
    show_exit, show_help, show_list, show_run, Notice,
};
use crate::store::{CommandInfo, Entry, Store};
use crate::text::same_text;

verus! {

/// What can be done with the command list.
#[derive(Clone, Copy, Debug, PartialEq, Eq, Structural)]
pub enum Action {
    Add,
    Del,
    Edit,
    Move,
    Run,
    List,
    Help,
}

/// The action that `token` names, by its name or by its short form.
pub open spec fn action_named(token: Seq<char>) -> Option<Action> {
    if token == "add"@ || token == "-a"@ {
        Some(Action::Add)
    } else if token == "del"@ || token == "-d"@ {
        Some(Action::Del)
    } else if token == "edit"@ || token == "-e"@ {
        Some(Action::Edit)
    } else if token == "move"@ || token == "-m"@ {
        Some(Action::Move)
    } else if token == "run"@ || token == "-r"@ {
        Some(Action::Run)
    } else if token == "list"@ || token == "-l"@ {
        Some(Action::List)
    } else if token == "help"@ || token == "-h"@ {
        Some(Action::Help)
    } else {
        None
    }
}

/// The action that `token` names.
pub fn get_action(token: &str) -> (action: Option<Action>)
    ensures
        action == action_named(token@),
{
    if same_text(token, "add") || same_text(token, "-a") {
        Some(Action::Add)
    } else if same_text(token, "del") || same_text(token, "-d") {
        Some(Action::Del)
    } else if same_text(token, "edit") || same_text(token, "-e") {
        Some(Action::Edit)
    } else if same_text(token, "move") || same_text(token, "-m") {
        Some(Action::Move)
    } else if same_text(token, "run") || same_text(token, "-r") {
        Some(Action::Run)
    } else if same_text(token, "list") || same_text(token, "-l") {
        Some(Action::List)
    } else if same_text(token, "help") || same_text(token, "-h") {
        Some(Action::Help)
    } else {
        None
    }
}

/// An action and the identifier that it is to work on.
#[derive(Clone, Debug, PartialEq, Eq)]
pub struct Invocation {
    pub action: Action,
    pub identifier: String,
}

impl View for Invocation {
    type V = (Action, Seq<char>);

    open spec fn view(&self) -> (Action, Seq<char>) {
        (self.action, self.identifier@)
    }
}

/// The action and the identifier that `args` ask for, or none where there are
/// no arguments, which asks for an interactive session. One argument is an
/// action without an identifier, or else an identifier for the run action. Of
/// two, the first is the action.
pub open spec fn dispatched(args: Seq<Seq<char>>) -> Result<
    Option<(Action, Seq<char>)>,
    ActionErrorView,
> {
    if args.len() > 2 {
        Err(ActionErrorView::ArgumentCount)
    } else if args.len() == 0 {
        Ok(None)
    } else if args.len() == 2 {
        match action_named(args[0]) {
            Some(action) => Ok(Some((action, args[1]))),
            None => Err(ActionErrorView::UnknownAction(args[0])),
        }
    } else {
        match action_named(args[0]) {
            Some(action) => Ok(Some((action, Seq::empty()))),
            None => Ok(Some((Action::Run, args[0]))),
        }
    }
}

/// The action and the identifier that `args` ask for.
pub fn dispatch(args: &Vec<String>) -> (asked: Result<Option<Invocation>, ActionError>)
    ensures
        match asked {
            Ok(Some(invocation)) => dispatched(args.deep_view()) == Ok::<
                Option<(Action, Seq<char>)>,
                ActionErrorView,
            >(Some(invocation@)),
            Ok(None) => dispatched(args.deep_view()) == Ok::<
                Option<(Action, Seq<char>)>,
                ActionErrorView,
            >(None),
            Err(e) => dispatched(args.deep_view()) == Err::<
                Option<(Action, Seq<char>)>,
                ActionErrorView,
            >(e@),
        },
{
    if args.len() > 2 {
        return Err(ActionError::ArgumentCount);
    }
    if args.len() == 0 {
        return Ok(None);
    }
    let action = get_action(args[0].as_str());
    if args.len() == 2 {
        match action {
            Some(action) => Ok(Some(Invocation { action, identifier: args[1].clone() })),
            None => Err(ActionError::UnknownAction(args[0].clone())),
        }
    } else {
        match action {
            Some(action) => Ok(Some(Invocation { action, identifier: String::new() })),
            None => Ok(Some(Invocation { action: Action::Run, identifier: args[0].clone() })),
        }
    }
}

/// What has to happen next, outside the dispatcher.
#[derive(Debug, PartialEq, Eq)]
pub enum Request {
    /// Start an interactive session.
    Interact,
    /// Ask for a name and a command line, offering `name` and `cmd` to edit.
    /// The answer goes to [`Runner::entered`], with `editing`.
    AskEntry { editing: Option<usize>, name: String, cmd: String },
    /// Ask `prompt`. The answer goes to [`Runner::confirmed`], with `index`.
    AskConfirmation { index: usize, prompt: String },
    /// Ask for the new position. The answer goes to [`Runner::positioned`],
    /// with `index`.
    AskPosition { index: usize },
    /// Write the text of [`Runner::save_commands`] to the store. How that went
    /// goes to [`Runner::saved`], with `notice`.
    Save { notice: Notice },
    /// Show `announce` and run `cmd` in the shell. How that went goes to
    /// [`Runner::exited`].
    Spawn { cmd: String, announce: String },
    /// The action is over: show the text, or report the error.
    Finish(Result<String, ActionError>),
}

/// A [`Request`] with its texts as sequences of characters.
pub enum RequestView {
    Interact,
    AskEntry { editing: Option<usize>, name: Seq<char>, cmd: Seq<char> },
    AskConfirmation { index: usize, prompt: Seq<char> },
    AskPosition { index: usize },
    Save { notice: Notice },
    Spawn { cmd: Seq<char>, announce: Seq<char> },
    Finish(Result<Seq<char>, ActionErrorView>),
}

impl View for Request {
    type V = RequestView;

    open spec fn view(&self) -> RequestView {
        match *self {
            Request::Interact => RequestView::Interact,
            Request::AskEntry { editing, name, cmd } => RequestView::AskEntry {
                editing,
                name: name@,
                cmd: cmd@,
            },
            Request::AskConfirmation { index, prompt } => RequestView::AskConfirmation {
                index,
                prompt: prompt@,
            },
            Request::AskPosition { index } => RequestView::AskPosition { index },
            Request::Save { notice } => RequestView::Save { notice },
            Request::Spawn { cmd, announce } => RequestView::Spawn {
                cmd: cmd@,
                announce: announce@,
            },
            Request::Finish(Ok(text)) => RequestView::Finish(Ok(text@)),
            Request::Finish(Err(e)) => RequestView::Finish(Err(e@)),
        }
    }
}

/// The first step of `action` on `identifier`. Adding asks for the new entry,
/// with the identifier as its name. Listing and help show their text. The
/// other actions find the entry first: deleting then asks to confirm, editing
/// asks for the entry anew, moving asks for the position, running starts the
/// command.
pub open spec fn begun(
    list: Seq<Entry>,
    action: Action,
    identifier: Seq<char>,
    interactive: bool,
) -> RequestView {
    match action {
        Action::Add => RequestView::AskEntry { editing: None, name: identifier, cmd: Seq::empty() },
        Action::List => RequestView::Finish(Ok(list_text(list, interactive))),
        Action::Help => RequestView::Finish(Ok(help_text(interactive))),
        _ => match resolved(list, identifier) {
            Err(e) => RequestView::Finish(Err(e)),
            Ok(i) => match action {
                Action::Del => RequestView::AskConfirmation {
                    index: i as usize,
                    prompt: confirm_text((i + 1) as nat),
                },
                Action::Edit => RequestView::AskEntry {
                    editing: Some(i as usize),
                    name: list[i].name,
                    cmd: list[i].cmd,
                },
                Action::Move => RequestView::AskPosition { index: i as usize },
                _ => RequestView::Spawn { cmd: list[i].cmd, announce: run_text(list[i].cmd) },
            },
        },
    }
}

/// The first step for the arguments `args`.
pub open spec fn started(list: Seq<Entry>, args: Seq<Seq<char>>, interactive: bool) -> RequestView {
    match dispatched(args) {
        Err(e) => RequestView::Finish(Err(e)),
        Ok(None) => RequestView::Interact,
        Ok(Some((action, identifier))) => begun(list, action, identifier, interactive),
    }
}

/// The list and the next step after the user has entered `name` and `cmd`,
/// for a new entry or for the entry `editing`.
pub open spec fn entered_outcome(
    list: Seq<Entry>,
    editing: Option<usize>,
    name: Seq<char>,
    cmd: Seq<char>,
) -> (Seq<Entry>, RequestView) {
    let entry = Entry { name, cmd };
    match editing {
        Some(index) => if name_refused(list, list[index as int].name, true, name) {
            (list, RequestView::Finish(Err(ActionErrorView::DuplicateName(name))))
        } else {
            (list.update(index as int, entry), RequestView::Save { notice: Notice::Edited })
        },
        None => if name_refused(list, Seq::empty(), false, name) {
            (list, RequestView::Finish(Err(ActionErrorView::DuplicateName(name))))
        } else {
            (list.push(entry), RequestView::Save { notice: Notice::Created })
        },
    }
}

/// Whether an answer, in lower case, confirms a deletion.
pub open spec fn confirms(lowered: Seq<char>) -> bool {
    lowered == "y"@ || lowered == "yes"@
}

/// The list and the next step after the user has answered whether to delete
/// the entry at `index`; `lowered` is the answer in lower case.
pub open spec fn settled(list: Seq<Entry>, index: int, lowered: Seq<char>) -> (
    Seq<Entry>,
    RequestView,
) {
    if confirms(lowered) {
        (list.remove(index), RequestView::Save { notice: Notice::Deleted })
    } else {
        (list, RequestView::Finish(Err(ActionErrorView::DeletionAborted)))
    }
}

/// The list and the next step after the user has answered `answer` as the
/// new position of the entry at `index`.
pub open spec fn positioned_outcome(list: Seq<Entry>, index: int, answer: Seq<char>) -> (
    Seq<Entry>,
    RequestView,
) {
    match parsed(answer) {
        Some(position) => if position >= 1 {
            (moved(list, index, position as int), RequestView::Save { notice: Notice::Moved })
        } else {
            (list, RequestView::Finish(Err(ActionErrorView::InvalidPosition)))
        },
        None => (list, RequestView::Finish(Err(ActionErrorView::InvalidPosition))),
    }
}

/// The end of an action that has changed the list: its notice, or the step
/// at which writing the store failed.
pub open spec fn saved_outcome(failure: Option<StoreStep>, notice: Notice) -> RequestView {
    match failure {
        None => RequestView::Finish(Ok(notice_text(notice))),
        Some(step) => RequestView::Finish(Err(ActionErrorView::PersistenceFailure(step))),
    }
}

/// The end of the run action: the report of the exit code, whatever it is, or
/// the shell that could not be started.
pub open spec fn exited_outcome(ended: Result<Option<i32>, Seq<char>>) -> RequestView {
    match ended {
        Ok(code) => RequestView::Finish(Ok(exit_text(code))),
        Err(shell) => RequestView::Finish(Err(ActionErrorView::ProcessSpawnFailure { shell })),
    }
}

/// The arguments of a line of an interactive session that was freed of the
/// white space around it, or none where the line asks to leave the session.
pub open spec fn line_read(line: Seq<char>) -> Option<Seq<Seq<char>>> {
    if tokens(line)[0] == "exit"@ {
        None
    } else {
        Some(tokens(line))
    }
}

/// The arguments of the line `line`, which has no white space around it, or
/// none where it asks to leave the session.
pub fn interpret_line(line: &str) -> (args: Option<Vec<String>>)
    ensures
        match args {
            Some(args) => line_read(line@) == Some(args.deep_view()),
            None => line_read(line@) is None,
        },
{
    let args = string_to_arguments(line);
    if same_text(args[0].as_str(), "exit") {
        None
    } else {
        Some(args)
    }
}

/// The arguments of a line that the user has entered in an interactive
/// session, or none where the line asks to leave the session.
pub fn read_line(line: &str) -> (args: Option<Vec<String>>)
    ensures
        match args {
            Some(args) => line_read(trimmed(line@)) == Some(args.deep_view()),
            None => line_read(trimmed(line@)) is None,
        },
{
    interpret_line(line.trim())
}

/// The command list of a session, and the store that keeps it.
pub struct Runner {
    store: Store,
    commands: CommandList,
}

impl Runner {
    /// The commands, in their order.
    pub closed spec fn list(&self) -> Seq<Entry> {
        self.commands@
    }

    /// Where the store keeps the commands.
    pub closed spec fn store_view(&self) -> Store {
        self.store
    }

    /// A session on `store`, whose file was read as `stored`.
    pub fn new(store: Store, stored: Option<Vec<CommandInfo>>) -> (runner: Runner)
        ensures
            runner.store_view() == store,
            runner.list() == match stored {
                Some(stored) if store.path() is Some => stored.deep_view(),
                _ => Seq::<Entry>::empty(),
            },
    {
        let commands = CommandList::new(store.get_commands(stored));
        Runner { store, commands }
    }

    /// The commands, in their order.
    pub fn commands(&self) -> (commands: &CommandList)
        ensures
            commands@ == self.list(),
    {
        &self.commands
    }

    /// The store that keeps the commands.
    pub fn store(&self) -> (store: &Store)
        ensures
            *store == self.store_view(),
    {
        &self.store
    }

    /// The text to write to the store for the commands as they are now. It
    /// fails only where the store has no file.
    pub fn save_commands(&self) -> (text: Result<String, ActionError>)
        ensures
            self.store_view().path() is Some ==> text is Ok,
            match text {
                Ok(text) => self.store_view().path() is Some && text@ == crate::store::stored_text(
                    self.list(),
                ),
                Err(e) => self.store_view().path() is None && e@
                    == ActionErrorView::PersistenceFailure(StoreStep::Path),
            },
    {
        self.store.save_commands(self.commands.entries())
    }

    /// The first step for the arguments `args`, in an interactive session (`ui`)
    /// or for a command line.
    pub fn exec_from_args(&self, args: &Vec<String>, ui: bool) -> (request: Request)
        ensures
            request@ == started(self.list(), args.deep_view(), ui),
    {
        match dispatch(args) {
            Err(e) => Request::Finish(Err(e)),
            Ok(None) => Request::Interact,
            Ok(Some(invocation)) => self.begin(
                invocation.action,
                invocation.identifier.as_str(),
                ui,
            ),
        }
    }

    /// The first step of `action` on `identifier`.
    pub fn begin(&self, action: Action, identifier: &str, ui: bool) -> (request: Request)
        ensures
            request@ == begun(self.list(), action, identifier@, ui),
    {
        match action {
            Action::Add => Request::AskEntry {
                editing: None,
                name: identifier.to_owned(),
                cmd: String::new(),
            },
            Action::List => Request::Finish(Ok(show_list(self.commands.entries(), ui))),
            Action::Help => Request::Finish(Ok(show_help(ui))),
            _ => match self.commands.resolve(identifier) {
                Err(e) => Request::Finish(Err(e)),
                Ok(index) => {
                    proof {
                        self.commands.lemma_len_fits();
                    }
                    let entry = self.commands.get(index);
                    match action {
                        Action::Del => Request::AskConfirmation {
                            index,
                            prompt: show_confirm(index + 1),
                        },
                        Action::Edit => Request::AskEntry {
                            editing: Some(index),
                            name: entry.name.clone(),
                            cmd: entry.cmd.clone(),
                        },
                        Action::Move => Request::AskPosition { index },
                        _ => Request::Spawn {
                            cmd: entry.cmd.clone(),
                            announce: show_run(entry.cmd.as_str()),
                        },
                    }
                },
            },
        }
    }

    /// Takes in the name and the command line that the user has entered, for a
    /// new entry or for the entry `editing`. A name that is taken changes
    /// nothing.
    pub fn entered(&mut self, editing: Option<usize>, name: String, cmd: String) -> (request:
        Request)
        requires
            editing matches Some(index) ==> index < old(self).list().len(),
        ensures
            (final(self).list(), request@) == entered_outcome(
                old(self).list(),
                editing,
                name@,
                cmd@,
            ),
            final(self).store_view() == old(self).store_view(),
            names_unique(old(self).list()) ==> names_unique(final(self).list()),
            final(self).list() != old(self).list() ==> request@ is Save,
    {
        let done = match editing {
            Some(index) => self.commands.edit(index, name, cmd),
            None => self.commands.add(name, cmd),
        };
        match done {
            Ok(_) => Request::Save {
                notice: if editing.is_some() {
                    Notice::Edited
                } else {
                    Notice::Created
                },
            },
            Err(e) => Request::Finish(Err(e)),
        }
    }

    /// Takes in the answer to whether the entry at `index` is to be deleted.
    /// Any answer but `y` or `yes`, in small or capital letters, changes
    /// nothing.
    pub fn confirmed(&mut self, index: usize, answer: &str) -> (request: Request)
        requires
            index < old(self).list().len(),
        ensures
            (final(self).list(), request@) == settled(
                old(self).list(),
                index as int,
                lowercase(answer@),
            ),
            final(self).store_view() == old(self).store_view(),
            names_unique(old(self).list()) ==> names_unique(final(self).list()),
            final(self).list() != old(self).list() ==> request@ is Save,
    {
        let lowered = answer.to_lowercase();
        self.settle(index, lowered.as_str())
    }

    /// Deletes the entry at `index` if `lowered`, the user's answer in lower
    /// case, is `y` or `yes`. Any other answer changes nothing.
    pub fn settle(&mut self, index: usize, lowered: &str) -> (request: Request)
        requires
            index < old(self).list().len(),
        ensures
            (final(self).list(), request@) == settled(old(self).list(), index as int, lowered@),
            final(self).store_view() == old(self).store_view(),
            names_unique(old(self).list()) ==> names_unique(final(self).list()),
            !confirms(lowered@) ==> final(self).list() == old(self).list() && request@
                == RequestView::Finish(Err(ActionErrorView::DeletionAborted)),
    {
        if same_text(lowered, "y") || same_text(lowered, "yes") {
            self.commands.delete(index);
            Request::Save { notice: Notice::Deleted }
        } else {
            Request::Finish(Err(ActionError::DeletionAborted))
        }
    }

    /// Takes in the answer to where the entry at `index` is to go. An answer
    /// that is no number from one on changes nothing.
    pub fn positioned(&mut self, index: usize, answer: &str) -> (request: Request)
        requires
            index < old(self).list().len(),
        ensures
            (final(self).list(), request@) == positioned_outcome(
                old(self).list(),
                index as int,
                answer@,
            ),
            final(self).store_view() == old(self).store_view(),
            names_unique(old(self).list()) ==> names_unique(final(self).list()),
            final(self).list() != old(self).list() ==> request@ is Save,
    {
        match parse_usize(answer) {
            Some(position) => {
                if position >= 1 {
                    self.commands.move_entry(index, position);
                    Request::Save { notice: Notice::Moved }
                } else {
                    Request::Finish(Err(ActionError::InvalidPosition))
                }
            },
            None => Request::Finish(Err(ActionError::InvalidPosition)),
        }
    }

    /// Ends an action that has changed the list. `failure` is the step at which
    /// writing the store failed, or none where it was written.
    pub fn saved(failure: Option<StoreStep>, notice: Notice) -> (request: Request)
        ensures
            request@ == saved_outcome(failure, notice),
    {
        match failure {
            None => Request::Finish(Ok(notice.text())),
            Some(step) => Request::Finish(Err(ActionError::PersistenceFailure(step))),
        }
    }

    /// Ends the run action. `ended` is the exit code of the command, where its
    /// process has one, or the shell that could not be started.
    pub fn exited(ended: Result<Option<i32>, String>) -> (request: Request)
        ensures
            request@ == exited_outcome(
                match ended {
                    Ok(code) => Ok(code),
                    Err(shell) => Err(shell@),
                },
            ),
    {
        match ended {
            Ok(code) => Request::Finish(Ok(show_exit(code))),
            Err(shell) => Request::Finish(Err(ActionError::ProcessSpawnFailure { shell })),
        }
    }
}

} // verus!
