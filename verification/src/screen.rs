//! The texts that the actions show.

use vstd::prelude::*;
use vstd::string::StringExecFns;
use crate::arg_parser::{escape_string, escaped};
use crate::number::{decimal, i32_text, push_decimal, signed_decimal};
use crate::store::{CommandInfo, Entry};

verus! {

/// A change to the list that was made and saved.
#[derive(Clone, Copy, Debug, PartialEq, Eq, Structural)]
pub enum Notice {
    Created,
    Deleted,
    Edited,
    Moved,
}

/// The text that reports `notice`.
pub open spec fn notice_text(notice: Notice) -> Seq<char> {
    match notice {
        Notice::Created => "\nCommand created successfully."@,
        Notice::Deleted => "\nCommand deleted successfully."@,
        Notice::Edited => "\nCommand edited successfully."@,
        Notice::Moved => "\nCommand moved successfully."@,
    }
}

impl Notice {
    /// The text that reports this change.
    pub fn text(&self) -> (text: String)
        ensures
            text@ == notice_text(*self),
    {
        match self {
            Notice::Created => String::from_str("\nCommand created successfully."),
            Notice::Deleted => String::from_str("\nCommand deleted successfully."),
            Notice::Edited => String::from_str("\nCommand edited successfully."),
            Notice::Moved => String::from_str("\nCommand moved successfully."),
        }
    }
}

/// The usage text: how to call an action, the actions, how to leave an
/// interactive session, and what an identifier is.
pub open spec fn help_text(interactive: bool) -> Seq<char> {
    (if interactive {
        "\nusage: <action> <identifier>\n"@
    } else {
        "\nusage: se <action> <identifier>\n"@
    }) + "\n<action> is one of:\n"@
        + "    -a, add    Add a new command using the given <identifier> as the initial name.\n"@
        + "    -d, del    Delete the specified command.\n"@
        + "    -e, edit   Edit the specified command.\n"@
        + "    -h, help   Show this help message. <identifier> is ignored.\n"@
        + "    -l, list   Show the command list. <identifier> is ignored.\n"@
        + "    -m, move   Move the specified command to a new position on the command list.\n"@
        + "    -r, run    Run the specified command. This is the default action when only a <identifier> is given.\n"@
        + (if interactive {
        "        exit   Exit this command line.\n"@
    } else {
        Seq::empty()
    })
        + "\n<identifier> is either the name of the command or the index of the command on the command list."@
}

/// The usage text.
pub fn show_help(interactive: bool) -> (text: String)
    ensures
        text@ == help_text(interactive),
{
    let mut text = if interactive {
        String::from_str("\nusage: <action> <identifier>\n")
    } else {
        String::from_str("\nusage: se <action> <identifier>\n")
    };
    text.append("\n<action> is one of:\n");
    text.append(
        "    -a, add    Add a new command using the given <identifier> as the initial name.\n",
    );
    text.append("    -d, del    Delete the specified command.\n");
    text.append("    -e, edit   Edit the specified command.\n");
    text.append("    -h, help   Show this help message. <identifier> is ignored.\n");
    text.append("    -l, list   Show the command list. <identifier> is ignored.\n");
    text.append(
        "    -m, move   Move the specified command to a new position on the command list.\n",
    );
    text.append(
        "    -r, run    Run the specified command. This is the default action when only a <identifier> is given.\n",
    );
    if interactive {
        text.append("        exit   Exit this command line.\n");
    }
    text.append(
        "\n<identifier> is either the name of the command or the index of the command on the command list.",
    );
    text
}

/// The line of the list for the entry at `index`: its number, counted from
/// one, and its escaped name.
pub open spec fn list_line(index: int, entry: Entry) -> Seq<char> {
    "\n"@ + decimal((index + 1) as nat) + ". "@ + escaped(entry.name)
}

/// The lines of the first `n` entries of `list`.
pub open spec fn list_lines(list: Seq<Entry>, n: int) -> Seq<char>
    decreases n,
{
    if n <= 0 {
        Seq::empty()
    } else {
        list_lines(list, n - 1) + list_line(n - 1, list[n - 1])
    }
}

/// How the add action is called: by its name alone at the prompt of an
/// interactive session, after the program's name on a command line.
pub open spec fn add_command(interactive: bool) -> Seq<char> {
    if interactive {
        "add"@
    } else {
        "se add"@
    }
}

/// What the list action shows: a line for each entry, or a hint where there
/// is none.
pub open spec fn list_text(list: Seq<Entry>, interactive: bool) -> Seq<char> {
    if list.len() == 0 {
        "\nNo commands saved. Run \""@ + add_command(interactive) + "\" to get started."@
    } else {
        list_lines(list, list.len() as int)
    }
}

/// What the list action shows for `commands`.
pub fn show_list(commands: &Vec<CommandInfo>, interactive: bool) -> (text: String)
    ensures
        text@ == list_text(commands.deep_view(), interactive),
{
    if commands.len() == 0 {
        let mut text = String::from_str("\nNo commands saved. Run \"");
        text.append(if interactive { "add" } else { "se add" });
        text.append("\" to get started.");
        return text;
    }
    let mut text = String::new();
    let mut i: usize = 0;
    while i < commands.len()
        invariant
            i <= commands.len(),
            text@ == list_lines(commands.deep_view(), i as int),
        decreases commands.len() - i,
    {
        text.append("\n");
        push_decimal(&mut text, (i + 1) as u64);
        text.append(". ");
        let name = escape_string(commands[i].name.as_str());
        text.append(name.as_str());
        i += 1;
    }
    text
}

/// The report of a command that has run: the exit code of its process, or
/// `N/A` where there is none.
pub open spec fn exit_text(code: Option<i32>) -> Seq<char> {
    "\nCommand exited with status code "@ + (match code {
        Some(code) => signed_decimal(code as int),
        None => "N/A"@,
    }) + "."@
}

/// The report of a command that has run.
pub fn show_exit(code: Option<i32>) -> (text: String)
    ensures
        text@ == exit_text(code),
{
    let mut text = String::from_str("\nCommand exited with status code ");
    match code {
        Some(code) => {
            let number = i32_text(code);
            text.append(number.as_str());
        },
        None => {
            text.append("N/A");
        },
    }
    text.append(".");
    text
}

/// What is shown before a command runs.
pub open spec fn run_text(cmd: Seq<char>) -> Seq<char> {
    "\nRunning command: "@ + cmd + "\n"@
}

/// What is shown before `cmd` runs.
pub fn show_run(cmd: &str) -> (text: String)
    ensures
        text@ == run_text(cmd@),
{
    let mut text = String::from_str("\nRunning command: ");
    text.append(cmd);
    text.append("\n");
    text
}

/// The question that is asked before entry `number` is deleted.
pub open spec fn confirm_text(number: nat) -> Seq<char> {
    "Are you sure you want to delete command #"@ + decimal(number) + "? (Y/N) "@
}

/// The question that is asked before entry `number` is deleted.
pub fn show_confirm(number: usize) -> (text: String)
    ensures
        text@ == confirm_text(number as nat),
{
    let mut text = String::from_str("Are you sure you want to delete command #");
    push_decimal(&mut text, number as u64);
    text.append("? (Y/N) ");
    text
}

} // verus!
