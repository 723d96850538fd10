use se::command_list::CommandList;
use se::error::ActionError;
use se::store::CommandInfo;

fn entry(name: &str, cmd: &str) -> CommandInfo {
    CommandInfo { name: name.to_string(), cmd: cmd.to_string() }
}

fn list(names: &[&str]) -> CommandList {
    CommandList::new(names.iter().map(|name| entry(name, &format!("echo {}", name))).collect())
}

fn names(list: &CommandList) -> Vec<String> {
    list.entries().iter().map(|entry| entry.name.clone()).collect()
}

fn not_found(identifier: &str, numbered: bool) -> ActionError {
    ActionError::EntryNotFound { identifier: identifier.to_string(), numbered }
}

#[test]
fn a_new_list_holds_the_entries_in_order() {
    let commands = list(&["a", "b", "c"]);
    assert_eq!(commands.len(), 3);
    assert_eq!(names(&commands), ["a", "b", "c"]);
    assert_eq!(commands.get(1), &entry("b", "echo b"));
    assert_eq!(CommandList::new(Vec::new()).len(), 0);
}

#[test]
fn a_copy_of_an_entry_equals_it() {
    let first = entry("build", "cargo build");
    assert_eq!(first.duplicate(), first);
}

#[test]
fn the_identifier_one_is_the_first_entry() {
    assert_eq!(list(&["a"]).resolve("1"), Ok(0));
    assert_eq!(list(&["a", "b", "c"]).resolve("1"), Ok(0));
    assert_eq!(list(&["a", "b", "c"]).resolve("3"), Ok(2));
    assert_eq!(list(&["a", "b", "c"]).resolve("+2"), Ok(1));
    assert_eq!(list(&["a", "b", "c"]).resolve("02"), Ok(1));
}

#[test]
fn the_identifier_zero_is_no_entry() {
    assert_eq!(list(&["a", "b"]).resolve("0"), Err(not_found("0", true)));
    assert_eq!(list(&[]).resolve("0"), Err(not_found("0", true)));
}

#[test]
fn a_number_beyond_the_list_is_no_entry() {
    assert_eq!(list(&["a", "b"]).resolve("3"), Err(not_found("3", true)));
    assert_eq!(list(&[]).resolve("1"), Err(not_found("1", true)));
    let greatest = usize::MAX.to_string();
    assert_eq!(list(&["a"]).resolve(&greatest), Err(not_found(&greatest, true)));
}

#[test]
fn a_number_names_the_position_even_where_an_entry_has_it_as_its_name() {
    assert_eq!(list(&["x", "1"]).resolve("1"), Ok(0));
    assert_eq!(list(&["5"]).resolve("5"), Err(not_found("5", true)));
}

#[test]
fn any_other_identifier_is_a_name() {
    let commands = list(&["build", "test", "run all"]);
    assert_eq!(commands.resolve("build"), Ok(0));
    assert_eq!(commands.resolve("test"), Ok(1));
    assert_eq!(commands.resolve("run all"), Ok(2));
    assert_eq!(commands.resolve("Build"), Err(not_found("Build", false)));
    assert_eq!(commands.resolve("buil"), Err(not_found("buil", false)));
    assert_eq!(commands.resolve("-1"), Err(not_found("-1", false)));
}

#[test]
fn a_number_too_great_to_count_with_is_a_name() {
    let commands = list(&["a", "99999999999999999999999999"]);
    assert_eq!(commands.resolve("99999999999999999999999999"), Ok(1));
    assert_eq!(
        commands.resolve("88888888888888888888888888"),
        Err(not_found("88888888888888888888888888", false))
    );
}

#[test]
fn the_first_of_two_entries_of_one_name_is_found() {
    let commands = list(&["a", "twin", "b", "twin"]);
    assert_eq!(commands.resolve("twin"), Ok(1));
    assert_eq!(commands.position("twin"), Some(1));
    assert_eq!(commands.position("none"), None);
}

#[test]
fn an_empty_identifier_is_refused() {
    assert_eq!(list(&["a"]).resolve(""), Err(ActionError::MissingIdentifier));
    assert_eq!(list(&[""]).resolve(""), Err(ActionError::MissingIdentifier));
}

#[test]
fn adding_a_name_that_exists_fails() {
    let mut commands = list(&["x", "y"]);
    assert_eq!(
        commands.add("x".to_string(), "echo again".to_string()),
        Err(ActionError::DuplicateName("x".to_string()))
    );
    assert_eq!(names(&commands), ["x", "y"]);
    assert_eq!(commands.get(0).cmd, "echo x");
}

#[test]
fn adding_a_new_name_appends() {
    let mut commands = list(&["x"]);
    assert_eq!(commands.add("z".to_string(), "echo z".to_string()), Ok(()));
    assert_eq!(commands.add("".to_string(), "".to_string()), Ok(()));
    assert_eq!(names(&commands), ["x", "z", ""]);
    assert_eq!(commands.get(1), &entry("z", "echo z"));
    assert_eq!(
        commands.add("".to_string(), "echo".to_string()),
        Err(ActionError::DuplicateName("".to_string()))
    );
}

#[test]
fn editing_an_entry_may_keep_its_name() {
    let mut commands = list(&["x", "y"]);
    assert_eq!(commands.edit(0, "x".to_string(), "echo new".to_string()), Ok(()));
    assert_eq!(commands.get(0), &entry("x", "echo new"));
    assert_eq!(names(&commands), ["x", "y"]);
}

#[test]
fn editing_an_entry_with_an_empty_name_may_keep_it() {
    let mut commands = list(&["", "y"]);
    assert_eq!(commands.edit(0, "".to_string(), "echo new".to_string()), Ok(()));
    assert_eq!(commands.get(0), &entry("", "echo new"));
}

#[test]
fn editing_an_entry_may_not_take_the_name_of_another() {
    let mut commands = list(&["x", "y"]);
    assert_eq!(
        commands.edit(0, "y".to_string(), "echo new".to_string()),
        Err(ActionError::DuplicateName("y".to_string()))
    );
    assert_eq!(commands.get(0), &entry("x", "echo x"));
    assert_eq!(commands.edit(0, "z".to_string(), "echo z".to_string()), Ok(()));
    assert_eq!(names(&commands), ["z", "y"]);
}

#[test]
fn create_cmd_checks_the_name() {
    let commands = list(&["x", "y"]);
    let blank = entry("", "");
    assert_eq!(
        commands.create_cmd(&blank, false, "n".to_string(), "c".to_string()),
        Ok(entry("n", "c"))
    );
    assert_eq!(
        commands.create_cmd(&blank, false, "x".to_string(), "c".to_string()),
        Err(ActionError::DuplicateName("x".to_string()))
    );
    let own = entry("x", "echo x");
    assert_eq!(
        commands.create_cmd(&own, true, "x".to_string(), "c".to_string()),
        Ok(entry("x", "c"))
    );
    assert_eq!(
        commands.create_cmd(&own, false, "x".to_string(), "c".to_string()),
        Err(ActionError::DuplicateName("x".to_string()))
    );
    assert_eq!(
        commands.create_cmd(&own, true, "y".to_string(), "c".to_string()),
        Err(ActionError::DuplicateName("y".to_string()))
    );
}

#[test]
fn deleting_takes_one_entry_out() {
    let mut commands = list(&["a", "b", "c"]);
    assert_eq!(commands.delete(1), entry("b", "echo b"));
    assert_eq!(names(&commands), ["a", "c"]);
    assert_eq!(commands.delete(1), entry("c", "echo c"));
    assert_eq!(commands.delete(0), entry("a", "echo a"));
    assert_eq!(commands.len(), 0);
}

#[test]
fn a_move_beyond_the_end_puts_the_entry_last() {
    let mut commands = list(&["a", "b", "c"]);
    commands.move_entry(0, 10);
    assert_eq!(names(&commands), ["b", "c", "a"]);
    assert_eq!(commands.get(2), &entry("a", "echo a"));
}

#[test]
fn a_move_goes_to_the_position_counted_from_one() {
    let mut commands = list(&["a", "b", "c", "d"]);
    commands.move_entry(3, 1);
    assert_eq!(names(&commands), ["d", "a", "b", "c"]);
    commands.move_entry(0, 3);
    assert_eq!(names(&commands), ["a", "b", "d", "c"]);
    commands.move_entry(1, 2);
    assert_eq!(names(&commands), ["a", "b", "d", "c"]);
    commands.move_entry(1, 4);
    assert_eq!(names(&commands), ["a", "d", "c", "b"]);
    commands.move_entry(0, 5);
    assert_eq!(names(&commands), ["d", "c", "b", "a"]);
    commands.move_entry(2, usize::MAX);
    assert_eq!(names(&commands), ["d", "c", "a", "b"]);
}

#[test]
fn a_move_in_a_list_of_one_changes_nothing() {
    let mut commands = list(&["a"]);
    commands.move_entry(0, 1);
    assert_eq!(names(&commands), ["a"]);
    commands.move_entry(0, 7);
    assert_eq!(names(&commands), ["a"]);
}
