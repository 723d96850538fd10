use se::error::{ActionError, StoreStep};
use se::store::{frame_commands, CommandInfo, Store};
use std::path::{Path, PathBuf};

fn entry(name: &str, cmd: &str) -> CommandInfo {
    CommandInfo { name: name.to_string(), cmd: cmd.to_string() }
}

fn store() -> Store {
    Store::in_dir(Some(PathBuf::from("settings")))
}

#[test]
fn the_file_is_in_a_directory_of_its_own_below_the_settings() {
    let expected: PathBuf = ["settings", "se", "commands.json"].iter().collect();
    assert_eq!(store().store_path(), Some(&expected));
    let path = store().store_path().cloned().unwrap();
    assert_eq!(path.file_name().unwrap(), "commands.json");
    assert_eq!(path.parent().unwrap().file_name().unwrap(), "se");
    assert_eq!(path.parent().unwrap().parent().unwrap(), Path::new("settings"));
}

#[test]
fn without_a_settings_directory_there_is_no_file() {
    assert_eq!(Store::in_dir(None).store_path(), None);
}

#[test]
fn the_store_of_this_user_is_below_a_settings_directory() {
    let store = Store::new();
    if let Some(path) = store.store_path() {
        assert!(path.ends_with(Path::new("se").join("commands.json")));
        assert_eq!(Some(path.clone()), dirs::config_dir().map(|dir| dir.join("se").join("commands.json")));
    } else {
        assert_eq!(dirs::config_dir(), None);
    }
}

#[test]
fn what_was_read_is_the_list() {
    let stored = vec![entry("a", "echo a"), entry("b", "echo b")];
    assert_eq!(store().get_commands(Some(stored.clone())), stored);
}

#[test]
fn a_file_that_could_not_be_read_is_an_empty_list() {
    assert_eq!(store().get_commands(None), Vec::new());
    assert_eq!(Store::in_dir(None).get_commands(None), Vec::new());
    assert_eq!(Store::in_dir(None).get_commands(Some(vec![entry("a", "")])), Vec::new());
}

#[test]
fn the_stored_text_is_an_array_of_objects() {
    assert_eq!(store().save_commands(&Vec::new()), Ok("[]".to_string()));
    assert_eq!(
        store().save_commands(&vec![entry("build", "echo hi")]),
        Ok(r#"[{"name":"build","cmd":"echo hi"}]"#.to_string())
    );
    assert_eq!(
        store().save_commands(&vec![entry("b", "2"), entry("a", "1"), entry("", "")]),
        Ok(r#"[{"name":"b","cmd":"2"},{"name":"a","cmd":"1"},{"name":"","cmd":""}]"#.to_string())
    );
}

#[test]
fn the_stored_text_escapes_as_json_does() {
    let commands = vec![entry("say \"hi\"", "echo C:\\x\n\tü\u{1}")];
    assert_eq!(
        store().save_commands(&commands),
        Ok(r#"[{"name":"say \"hi\"","cmd":"echo C:\\x\n\tü\u0001"}]"#.to_string())
    );
}

#[test]
fn the_stored_text_reads_back_as_json() {
    let commands = vec![entry("say \"hi\"", "echo C:\\x\n\tü\u{1}"), entry("b c", "")];
    let text = store().save_commands(&commands).unwrap();
    let value: serde_json::Value = serde_json::from_str(&text).unwrap();
    let items = value.as_array().unwrap();
    assert_eq!(items.len(), 2);
    for (item, command) in items.iter().zip(&commands) {
        let object = item.as_object().unwrap();
        assert_eq!(object.len(), 2);
        assert_eq!(object.get("name").unwrap().as_str(), Some(command.name.as_str()));
        assert_eq!(object.get("cmd").unwrap().as_str(), Some(command.cmd.as_str()));
    }
}

#[test]
fn without_a_file_nothing_can_be_saved() {
    let nowhere = Store::in_dir(None);
    let failed = Err(ActionError::PersistenceFailure(StoreStep::Path));
    assert_eq!(nowhere.save_commands(&Vec::new()), failed);
    assert_eq!(nowhere.save_commands(&vec![entry("a", "b")]), failed);
}

#[test]
fn string_literals_are_framed_as_objects() {
    assert_eq!(frame_commands(&Vec::new()), "[]");
    let literals = vec![
        ("\"a\"".to_string(), "\"1\"".to_string()),
        ("\"b\"".to_string(), "\"2\"".to_string()),
    ];
    assert_eq!(frame_commands(&literals), r#"[{"name":"a","cmd":"1"},{"name":"b","cmd":"2"}]"#);
}
