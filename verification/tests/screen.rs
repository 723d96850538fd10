use se::screen::{show_confirm, show_exit, show_help, show_list, show_run, Notice};
use se::store::CommandInfo;

fn entry(name: &str, cmd: &str) -> CommandInfo {
    CommandInfo { name: name.to_string(), cmd: cmd.to_string() }
}

#[test]
fn the_help_names_the_program_on_a_command_line_only() {
    let text = show_help(false);
    assert!(text.starts_with("\nusage: se <action> <identifier>\n\n<action> is one of:\n"));
    assert!(!text.contains("exit"));
    assert!(text.ends_with("the index of the command on the command list."));
    let text = show_help(true);
    assert!(text.starts_with("\nusage: <action> <identifier>\n\n<action> is one of:\n"));
    assert!(text.contains("\n        exit   Exit this command line.\n\n<identifier> is either"));
}

#[test]
fn the_help_lists_every_action_with_its_short_form() {
    for interactive in [false, true] {
        let text = show_help(interactive);
        for line in
            ["-a, add ", "-d, del ", "-e, edit ", "-h, help ", "-l, list ", "-m, move ", "-r, run "]
        {
            assert!(text.contains(&format!("\n    {}", line)), "{:?} is missing", line);
        }
    }
}

#[test]
fn the_list_numbers_the_escaped_names_from_one() {
    let commands = vec![entry("build", "make"), entry("run all", "make run"), entry("q\"", "")];
    assert_eq!(show_list(&commands, false), "\n1. build\n2. \"run all\"\n3. q\\\"");
    assert_eq!(show_list(&commands, true), "\n1. build\n2. \"run all\"\n3. q\\\"");
}

#[test]
fn the_list_counts_beyond_nine() {
    let commands: Vec<CommandInfo> = (0..11).map(|i| entry(&format!("c{}", i), "")).collect();
    let text = show_list(&commands, false);
    assert!(text.ends_with("\n9. c8\n10. c9\n11. c10"));
}

#[test]
fn an_empty_list_hints_at_the_add_action() {
    assert_eq!(show_list(&[].to_vec(), false), "\nNo commands saved. Run \"se add\" to get started.");
    assert_eq!(show_list(&[].to_vec(), true), "\nNo commands saved. Run \"add\" to get started.");
}

#[test]
fn the_exit_code_is_reported_or_its_absence() {
    assert_eq!(show_exit(Some(0)), "\nCommand exited with status code 0.");
    assert_eq!(show_exit(Some(127)), "\nCommand exited with status code 127.");
    assert_eq!(show_exit(Some(-2)), "\nCommand exited with status code -2.");
    assert_eq!(show_exit(None), "\nCommand exited with status code N/A.");
}

#[test]
fn the_command_is_announced_before_it_runs() {
    assert_eq!(show_run("echo hi"), "\nRunning command: echo hi\n");
}

#[test]
fn the_confirmation_names_the_entry_by_its_number() {
    assert_eq!(show_confirm(1), "Are you sure you want to delete command #1? (Y/N) ");
    assert_eq!(show_confirm(12), "Are you sure you want to delete command #12? (Y/N) ");
}

#[test]
fn each_change_has_its_notice() {
    assert_eq!(Notice::Created.text(), "\nCommand created successfully.");
    assert_eq!(Notice::Deleted.text(), "\nCommand deleted successfully.");
    assert_eq!(Notice::Edited.text(), "\nCommand edited successfully.");
    assert_eq!(Notice::Moved.text(), "\nCommand moved successfully.");
}
