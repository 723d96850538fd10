//! The saved commands as they are kept between two runs.

use std::path::PathBuf;
use vstd::prelude::*;
use vstd::string::StringExecFns;
use crate::error::{ActionError, ActionErrorView, StoreStep};
use crate::external::{child, config_dir, json_string, pushed, quote};

verus! {

/// A saved command: the name that the user calls it by, and the command line
/// that the shell is given.
#[derive(Clone, Debug, PartialEq, Eq)]
pub struct CommandInfo {
    pub name: String,
    pub cmd: String,
}

/// A saved command with its texts as sequences of characters.
pub struct Entry {
    pub name: Seq<char>,
    pub cmd: Seq<char>,
}

impl View for CommandInfo {
    type V = Entry;

    open spec fn view(&self) -> Entry {
        Entry { name: self.name@, cmd: self.cmd@ }
    }
}

impl DeepView for CommandInfo {
    type V = Entry;

    open spec fn deep_view(&self) -> Entry {
        self@
    }
}

impl CommandInfo {
    /// A command with the same name and command line.
    pub fn duplicate(&self) -> (copy: CommandInfo)
        ensures
            copy@ == self@,
    {
        CommandInfo { name: self.name.clone(), cmd: self.cmd.clone() }
    }
}

/// The JSON object of a command whose name and command line are written as
/// the string literals `name` and `cmd`.
pub open spec fn object_text(name: Seq<char>, cmd: Seq<char>) -> Seq<char> {
    "{\"name\":"@ + name + ",\"cmd\":"@ + cmd + "}"@
}

/// The objects of the first `n` commands, each given by its two string
/// literals, with a comma between two of them.
pub open spec fn objects_text(literals: Seq<(Seq<char>, Seq<char>)>, n: int) -> Seq<char>
    decreases n,
{
    if n <= 0 {
        Seq::empty()
    } else if n == 1 {
        object_text(literals[0].0, literals[0].1)
    } else {
        objects_text(literals, n - 1) + ","@ + object_text(literals[n - 1].0, literals[n - 1].1)
    }
}

/// The JSON array of the commands that are given by their string literals.
pub open spec fn array_text(literals: Seq<(Seq<char>, Seq<char>)>) -> Seq<char> {
    "["@ + objects_text(literals, literals.len() as int) + "]"@
}

/// The two JSON string literals of each command of `list`.
pub open spec fn literals_of(list: Seq<Entry>) -> Seq<(Seq<char>, Seq<char>)> {
    Seq::new(list.len(), |i: int| (json_string(list[i].name), json_string(list[i].cmd)))
}

/// The text that is stored for `list`: a JSON array with one object for each
/// command, in the order of the list.
pub open spec fn stored_text(list: Seq<Entry>) -> Seq<char> {
    array_text(literals_of(list))
}

/// The texts of two strings.
pub open spec fn pair_view(pair: (String, String)) -> (Seq<char>, Seq<char>) {
    (pair.0@, pair.1@)
}

/// The JSON array of the commands whose names and command lines are written
/// as the string literals in `literals`.
pub fn frame_commands(literals: &Vec<(String, String)>) -> (text: String)
    ensures
        text@ == array_text(literals@.map_values(|pair: (String, String)| pair_view(pair))),
{
    let ghost views = literals@.map_values(|pair: (String, String)| pair_view(pair));
    let mut text = String::from_str("[");
    let mut i: usize = 0;
    while i < literals.len()
        invariant
            i <= literals.len(),
            views == literals@.map_values(|pair: (String, String)| pair_view(pair)),
            text@ == "["@ + objects_text(views, i as int),
        decreases literals.len() - i,
    {
        if i > 0 {
            text.append(",");
        }
        text.append("{\"name\":");
        text.append(literals[i].0.as_str());
        text.append(",\"cmd\":");
        text.append(literals[i].1.as_str());
        text.append("}");
        i += 1;
    }
    text.append("]");
    text
}

/// Where the commands are kept.
pub struct Store {
    store_path: Option<PathBuf>,
}

/// The file of the store in the settings directory `dir`.
pub open spec fn store_file(dir: PathBuf) -> PathBuf {
    pushed(pushed(dir, "se"@), "commands.json"@)
}

impl Store {
    /// The path of the store's file, where one is known.
    pub closed spec fn path(&self) -> Option<PathBuf> {
        self.store_path
    }

    /// The store of this user: a file in the directory that the environment
    /// names for settings, or no file where it names none.
    pub fn new() -> (store: Store)
        ensures
            store.path() matches Some(path) ==> exists|dir: PathBuf| path == store_file(dir),
    {
        Store::in_dir(config_dir())
    }

    /// The store whose file is in the settings directory `dir`.
    pub fn in_dir(dir: Option<PathBuf>) -> (store: Store)
        ensures
            store.path() == match dir {
                Some(dir) => Some(store_file(dir)),
                None => None,
            },
    {
        match dir {
            Some(dir) => Store { store_path: Some(child(child(dir, "se"), "commands.json")) },
            None => Store { store_path: None },
        }
    }

    /// The path of the store's file, where one is known.
    pub fn store_path(&self) -> (path: Option<&PathBuf>)
        ensures
            match path {
                Some(path) => self.path() == Some(*path),
                None => self.path() is None,
            },
    {
        self.store_path.as_ref()
    }

    /// The commands of the store, given what was read from its file: `stored`,
    /// or none where the file is missing or does not hold a list of commands.
    /// A store without a file has no commands.
    pub fn get_commands(&self, stored: Option<Vec<CommandInfo>>) -> (commands: Vec<CommandInfo>)
        ensures
            commands.deep_view() == match stored {
                Some(stored) if self.path() is Some => stored.deep_view(),
                _ => Seq::<Entry>::empty(),
            },
    {
        if self.store_path.is_none() {
            return Vec::new();
        }
        match stored {
            Some(stored) => stored,
            None => Vec::new(),
        }
    }

    /// The text to write to the store's file for `commands`. It fails only
    /// where the store has no file.
    pub fn save_commands(&self, commands: &Vec<CommandInfo>) -> (text: Result<String, ActionError>)
        ensures
            self.path() is Some ==> text is Ok,
            match text {
                Ok(text) => self.path() is Some && text@ == stored_text(commands.deep_view()),
                Err(e) => self.path() is None && e@ == ActionErrorView::PersistenceFailure(
                    StoreStep::Path,
                ),
            },
    {
        if self.store_path.is_none() {
            return Err(ActionError::PersistenceFailure(StoreStep::Path));
        }
        let mut literals: Vec<(String, String)> = Vec::new();
        let mut i: usize = 0;
        while i < commands.len()
            invariant
                i <= commands.len(),
                self.path() is Some,
                literals@.map_values(|pair: (String, String)| pair_view(pair)) == literals_of(
                    commands.deep_view(),
                ).take(i as int),
            decreases commands.len() - i,
        {
            let name = match quote(commands[i].name.as_str()) {
                Ok(literal) => literal,
                Err(_) => {
                    return Err(ActionError::PersistenceFailure(StoreStep::Write));
                },
            };
            let cmd = match quote(commands[i].cmd.as_str()) {
                Ok(literal) => literal,
                Err(_) => {
                    return Err(ActionError::PersistenceFailure(StoreStep::Write));
                },
            };
            proof {
                assert(literals@.push((name, cmd)).map_values(
                    |pair: (String, String)| pair_view(pair),
                ) == literals@.map_values(|pair: (String, String)| pair_view(pair)).push(
                    (name@, cmd@),
                ));
            }
            literals.push((name, cmd));
            i += 1;
        }
        proof {
            let all = literals_of(commands.deep_view());
            assert(all.take(all.len() as int) == all);
        }
        Ok(frame_commands(&literals))
    }
}

} // verus!
