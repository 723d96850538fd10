//! The list of saved commands: finding an entry by its number or its name,
//! and the changes that keep the names apart.

use vstd::prelude::*;
use crate::error::{ActionError, ActionErrorView};
use crate::number::{
    decimal, lemma_decimal_reads_back, lemma_decimal_value, parse_usize, parsed,
};
use crate::store::{CommandInfo, Entry};
use crate::text::same_text;

verus! {

/// Whether no two entries of `list` have the same name.
pub open spec fn names_unique(list: Seq<Entry>) -> bool {
    forall|i: int, j: int|
        0 <= i < j < list.len() ==> (#[trigger] list[i]).name != (#[trigger] list[j]).name
}

/// Whether an entry of `list` is called `name`.
pub open spec fn has_name(list: Seq<Entry>, name: Seq<char>) -> bool {
    exists|i: int| 0 <= i < list.len() && (#[trigger] list[i]).name == name
}

/// Whether entry `i` is the first of `list` that is called `name`.
pub open spec fn is_first_named(list: Seq<Entry>, name: Seq<char>, i: int) -> bool {
    &&& 0 <= i < list.len()
    &&& list[i].name == name
    &&& forall|j: int| 0 <= j < i ==> (#[trigger] list[j]).name != name
}

/// The index of the first entry of `list` that is called `name`.
pub open spec fn first_named(list: Seq<Entry>, name: Seq<char>) -> Option<int> {
    if exists|i: int| is_first_named(list, name, i) {
        Some(choose|i: int| is_first_named(list, name, i))
    } else {
        None
    }
}

/// The index of the entry that `identifier` stands for. A number counts the
/// entries from one; any other text is the name of an entry.
pub open spec fn resolved(list: Seq<Entry>, identifier: Seq<char>) -> Result<int, ActionErrorView> {
    if identifier.len() == 0 {
        Err(ActionErrorView::MissingIdentifier)
    } else {
        match parsed(identifier) {
            Some(number) => if 1 <= number <= list.len() {
                Ok(number - 1)
            } else {
                Err(ActionErrorView::EntryNotFound { identifier, numbered: true })
            },
            None => match first_named(list, identifier) {
                Some(i) => Ok(i),
                None => Err(ActionErrorView::EntryNotFound { identifier, numbered: false }),
            },
        }
    }
}

/// Whether `name` is refused for an entry, because an entry of the list has it.
/// An entry that is edited (`name_reserved`) may keep the name it had, `prior`.
pub open spec fn name_refused(
    list: Seq<Entry>,
    prior: Seq<char>,
    name_reserved: bool,
    name: Seq<char>,
) -> bool {
    !(name_reserved && prior == name) && has_name(list, name)
}

/// Where an entry lands that is moved to the 1-based `position` of a list that
/// has `others` entries besides it: at that position, or behind the last.
pub open spec fn landing(others: int, position: int) -> int {
    if position - 1 > others {
        others
    } else {
        position - 1
    }
}

/// `list` after the entry at `from` was taken out and put in again at the
/// 1-based `position`, counted in the list without it.
pub open spec fn moved(list: Seq<Entry>, from: int, position: int) -> Seq<Entry> {
    let rest = list.remove(from);
    rest.insert(landing(rest.len() as int, position), list[from])
}

/// The saved commands, in the order in which the user numbers them.
pub struct CommandList {
    entries: Vec<CommandInfo>,
}

impl View for CommandList {
    type V = Seq<Entry>;

    closed spec fn view(&self) -> Seq<Entry> {
        self.entries.deep_view()
    }
}

impl CommandList {
    /// The list of `entries`, in their order.
    pub fn new(entries: Vec<CommandInfo>) -> (list: CommandList)
        ensures
            list@ == entries.deep_view(),
    {
        CommandList { entries }
    }

    /// The entries, in their order.
    pub fn entries(&self) -> (entries: &Vec<CommandInfo>)
        ensures
            entries.deep_view() == self@,
    {
        &self.entries
    }

    /// The entries of a list can be counted in a `usize`.
    pub proof fn lemma_len_fits(&self)
        ensures
            self@.len() <= usize::MAX,
    {
        vstd::std_specs::vec::axiom_spec_len(&self.entries);
    }

    /// The number of entries.
    pub fn len(&self) -> (len: usize)
        ensures
            len == self@.len(),
    {
        self.entries.len()
    }

    /// The entry at `index`.
    pub fn get(&self, index: usize) -> (entry: &CommandInfo)
        requires
            index < self@.len(),
        ensures
            entry@ == self@[index as int],
    {
        &self.entries[index]
    }

    /// The index of the first entry that is called `name`.
    pub fn position(&self, name: &str) -> (found: Option<usize>)
        ensures
            found matches Some(i) ==> is_first_named(self@, name@, i as int),
            found is None ==> !has_name(self@, name@),
    {
        let mut i: usize = 0;
        while i < self.entries.len()
            invariant
                i <= self.entries.len(),
                forall|j: int| 0 <= j < i ==> (#[trigger] self@[j]).name != name@,
            decreases self.entries.len() - i,
        {
            if same_text(self.entries[i].name.as_str(), name) {
                return Some(i);
            }
            i += 1;
        }
        None
    }

    /// The index of the entry that `identifier` stands for.
    pub fn resolve(&self, identifier: &str) -> (index: Result<usize, ActionError>)
        ensures
            match index {
                Ok(i) => resolved(self@, identifier@) == Ok::<int, ActionErrorView>(i as int),
                Err(e) => resolved(self@, identifier@) == Err::<int, ActionErrorView>(e@),
            },
    {
        if identifier.is_empty() {
            return Err(ActionError::MissingIdentifier);
        }
        match parse_usize(identifier) {
            Some(number) => {
                if 1 <= number && number <= self.entries.len() {
                    Ok(number - 1)
                } else {
                    Err(ActionError::EntryNotFound { identifier: identifier.to_owned(), numbered: true })
                }
            },
            None => {
                let found = self.position(identifier);
                proof {
                    lemma_first_named(self@, identifier@);
                }
                match found {
                    Some(i) => Ok(i),
                    None => Err(
                        ActionError::EntryNotFound { identifier: identifier.to_owned(), numbered: false },
                    ),
                }
            },
        }
    }

    /// Makes the entry that the user entered as `name` and `cmd`, unless the name
    /// is taken. `base` is the entry that was offered for editing; where it is an
    /// entry of the list (`name_reserved`), its own name is free for it.
    pub fn create_cmd(
        &self,
        base: &CommandInfo,
        name_reserved: bool,
        name: String,
        cmd: String,
    ) -> (made: Result<CommandInfo, ActionError>)
        ensures
            match made {
                Ok(entry) => {
                    &&& !name_refused(self@, base@.name, name_reserved, name@)
                    &&& entry@ == (Entry { name: name@, cmd: cmd@ })
                },
                Err(e) => {
                    &&& name_refused(self@, base@.name, name_reserved, name@)
                    &&& e@ == ActionErrorView::DuplicateName(name@)
                },
            },
    {
        let keeps_own = name_reserved && base.name == name;
        if !keeps_own && self.position(name.as_str()).is_some() {
            return Err(ActionError::DuplicateName(name));
        }
        Ok(CommandInfo { name, cmd })
    }

    /// Adds an entry at the end, unless its name is taken.
    pub fn add(&mut self, name: String, cmd: String) -> (done: Result<(), ActionError>)
        ensures
            match done {
                Ok(_) => {
                    &&& !has_name(old(self)@, name@)
                    &&& final(self)@ == old(self)@.push(Entry { name: name@, cmd: cmd@ })
                },
                Err(e) => {
                    &&& has_name(old(self)@, name@)
                    &&& e@ == ActionErrorView::DuplicateName(name@)
                    &&& final(self)@ == old(self)@
                },
            },
            names_unique(old(self)@) ==> names_unique(final(self)@),
    {
        let base = CommandInfo { name: String::new(), cmd: String::new() };
        match self.create_cmd(&base, false, name, cmd) {
            Ok(entry) => {
                proof {
                    if names_unique(self@) {
                        lemma_push_keeps_unique(self@, entry@);
                    }
                }
                self.entries.push(entry);
                Ok(())
            },
            Err(e) => Err(e),
        }
    }

    /// Gives the entry at `index` a new name and command line, unless another
    /// entry has that name.
    pub fn edit(&mut self, index: usize, name: String, cmd: String) -> (done: Result<(), ActionError>)
        requires
            index < old(self)@.len(),
        ensures
            match done {
                Ok(_) => {
                    &&& !name_refused(old(self)@, old(self)@[index as int].name, true, name@)
                    &&& final(self)@ == old(self)@.update(
                        index as int,
                        Entry { name: name@, cmd: cmd@ },
                    )
                },
                Err(e) => {
                    &&& name_refused(old(self)@, old(self)@[index as int].name, true, name@)
                    &&& e@ == ActionErrorView::DuplicateName(name@)
                    &&& final(self)@ == old(self)@
                },
            },
            names_unique(old(self)@) ==> names_unique(final(self)@),
    {
        match self.create_cmd(&self.entries[index], true, name, cmd) {
            Ok(entry) => {
                proof {
                    if names_unique(self@) {
                        lemma_update_keeps_unique(self@, index as int, entry@);
                    }
                }
                self.entries[index] = entry;
                Ok(())
            },
            Err(e) => Err(e),
        }
    }

    /// Takes the entry at `index` out of the list.
    pub fn delete(&mut self, index: usize) -> (gone: CommandInfo)
        requires
            index < old(self)@.len(),
        ensures
            gone@ == old(self)@[index as int],
            final(self)@ == old(self)@.remove(index as int),
            names_unique(old(self)@) ==> names_unique(final(self)@),
    {
        proof {
            lemma_remove_keeps_unique(self@, index as int);
        }
        self.entries.remove(index)
    }

    /// Moves the entry at `index` to the 1-based `position`. A position behind
    /// the end of the list puts the entry last.
    pub fn move_entry(&mut self, index: usize, position: usize)
        requires
            index < old(self)@.len(),
            position >= 1,
        ensures
            final(self)@ == moved(old(self)@, index as int, position as int),
            names_unique(old(self)@) ==> names_unique(final(self)@),
    {
        let ghost before = self@;
        proof {
            lemma_moved_keeps_unique(before, index as int, position as int);
        }
        let entry = self.delete(index);
        let mut target = position - 1;
        if target > self.entries.len() {
            target = self.entries.len();
        }
        self.entries.insert(target, entry);
    }
}

/// A list of distinct names stays one when an entry with a new name is added.
pub proof fn lemma_push_keeps_unique(list: Seq<Entry>, entry: Entry)
    requires
        names_unique(list),
        !has_name(list, entry.name),
    ensures
        names_unique(list.push(entry)),
{
}

/// A list of distinct names stays one when an entry is replaced by one whose
/// name is not refused.
pub proof fn lemma_update_keeps_unique(list: Seq<Entry>, index: int, entry: Entry)
    requires
        names_unique(list),
        0 <= index < list.len(),
        !name_refused(list, list[index].name, true, entry.name),
    ensures
        names_unique(list.update(index, entry)),
{
}

/// A list of distinct names stays one when an entry is taken out.
pub proof fn lemma_remove_keeps_unique(list: Seq<Entry>, index: int)
    requires
        0 <= index < list.len(),
    ensures
        names_unique(list) ==> names_unique(list.remove(index)),
{
    let after = list.remove(index);
    if names_unique(list) {
        assert forall|i: int, j: int| 0 <= i < j < after.len() implies (#[trigger] after[i]).name
            != (#[trigger] after[j]).name by {
            let from_i = if i < index { i } else { i + 1 };
            let from_j = if j < index { j } else { j + 1 };
            assert(list[from_i].name != list[from_j].name);
        }
    }
}

/// A move keeps the entries and the order of those that are not moved, and puts
/// the moved one at the position asked for, or last where the list is shorter.
pub proof fn lemma_moved(list: Seq<Entry>, from: int, position: int)
    requires
        0 <= from < list.len(),
        position >= 1,
    ensures
        moved(list, from, position).len() == list.len(),
        0 <= landing(list.len() - 1, position) < list.len(),
        moved(list, from, position)[landing(list.len() - 1, position)] == list[from],
        moved(list, from, position).remove(landing(list.len() - 1, position)) == list.remove(from),
        position >= list.len() ==> moved(list, from, position).last() == list[from],
{
}

/// A list of distinct names stays one when an entry is moved.
pub proof fn lemma_moved_keeps_unique(list: Seq<Entry>, from: int, position: int)
    requires
        0 <= from < list.len(),
        position >= 1,
    ensures
        names_unique(list) ==> names_unique(moved(list, from, position)),
{
    let rest = list.remove(from);
    let to = landing(rest.len() as int, position);
    let after = moved(list, from, position);
    let origin = |k: int| if k == to { from } else {
        let in_rest = if k < to { k } else { k - 1 };
        if in_rest < from { in_rest } else { in_rest + 1 }
    };
    if names_unique(list) {
        assert forall|i: int, j: int| 0 <= i < j < after.len() implies (#[trigger] after[i]).name
            != (#[trigger] after[j]).name by {
            assert(origin(i) != origin(j));
        }
    }
}

/// In a list of distinct names, a new name for an entry is refused exactly if
/// another entry has it.
pub proof fn lemma_refused_for_another(list: Seq<Entry>, index: int, name: Seq<char>)
    requires
        names_unique(list),
        0 <= index < list.len(),
    ensures
        name_refused(list, list[index].name, true, name) <==> exists|j: int|
            0 <= j < list.len() && j != index && (#[trigger] list[j]).name == name,
{
}

/// The entries are numbered from one: the decimal text of a number stands for
/// the entry that many places from the start, counting the first as one, and
/// for no entry where the number is zero or greater than the list is long.
pub proof fn lemma_numbered_from_one(list: Seq<Entry>, number: usize)
    ensures
        resolved(list, decimal(number as nat)) == if 1 <= number <= list.len() {
            Ok::<int, ActionErrorView>(number - 1)
        } else {
            Err::<int, ActionErrorView>(
                ActionErrorView::EntryNotFound {
                    identifier: decimal(number as nat),
                    numbered: true,
                },
            )
        },
{
    lemma_decimal_value(number as nat);
    lemma_decimal_reads_back(number);
}

/// The identifier `1` stands for the first entry of every list that has one,
/// and the identifier `0` for no entry of any list.
pub proof fn lemma_one_is_first(list: Seq<Entry>)
    ensures
        list.len() > 0 ==> resolved(list, "1"@) == Ok::<int, ActionErrorView>(0),
        resolved(list, "0"@) == Err::<int, ActionErrorView>(
            ActionErrorView::EntryNotFound { identifier: "0"@, numbered: true },
        ),
{
    reveal_strlit("1");
    reveal_strlit("0");
    assert("1"@ == decimal(1));
    assert("0"@ == decimal(0));
    lemma_numbered_from_one(list, 1);
    lemma_numbered_from_one(list, 0);
}

/// A name that an entry has is refused for a new entry, and an entry that is
/// edited may keep the name that it has.
pub proof fn lemma_names_taken_and_kept(list: Seq<Entry>, index: int, prior: Seq<char>)
    requires
        0 <= index < list.len(),
    ensures
        name_refused(list, prior, false, list[index].name),
        !name_refused(list, list[index].name, true, list[index].name),
{
}

/// At most one entry is the first of its name, and there is one exactly if the
/// name occurs in the list.
pub proof fn lemma_first_named(list: Seq<Entry>, name: Seq<char>)
    ensures
        forall|i: int| is_first_named(list, name, i) ==> first_named(list, name) == Some(i),
        first_named(list, name) is Some <==> has_name(list, name),
        first_named(list, name) matches Some(i) ==> is_first_named(list, name, i),
{
    assert forall|i: int| is_first_named(list, name, i) implies first_named(list, name) == Some(
        i,
    ) by {
        let chosen = choose|k: int| is_first_named(list, name, k);
        assert(chosen == i);
    }
    if has_name(list, name) {
        let at = choose|i: int| 0 <= i < list.len() && (#[trigger] list[i]).name == name;
        lemma_first_exists(list, name, at);
    }
}

proof fn lemma_first_exists(list: Seq<Entry>, name: Seq<char>, at: int)
    requires
        0 <= at < list.len(),
        list[at].name == name,
    ensures
        exists|i: int| is_first_named(list, name, i),
    decreases at,
{
    if exists|j: int| 0 <= j < at && (#[trigger] list[j]).name == name {
        let j = choose|j: int| 0 <= j < at && (#[trigger] list[j]).name == name;
        lemma_first_exists(list, name, j);
    } else {
        assert(is_first_named(list, name, at));
    }
}

} // verus!
