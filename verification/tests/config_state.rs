use alfred::config::{Config, ConfigError, DB_FILE};
use alfred::errors::NoDolphinError;
use alfred::state::{command_check, State};

#[test]
fn config_from_vars_reads_both_variables() {
    let c = Config::from_vars(Some("d.txt".to_string()), Some("/var/state".to_string())).unwrap();
    assert_eq!(c.dolphin_path(), "d.txt");
    assert_eq!(c.state_dir(), "/var/state");
}

#[test]
fn config_from_vars_reports_the_first_missing_variable() {
    assert_eq!(
        Config::from_vars(None, None).unwrap_err(),
        ConfigError::MissingDolphinPath
    );
    assert_eq!(
        Config::from_vars(Some("d".to_string()), None).unwrap_err(),
        ConfigError::MissingStateDir
    );
    assert_eq!(
        ConfigError::MissingDolphinPath.message(),
        "failed to read DOLPHIN_PATH environment variable"
    );
    assert_eq!(
        ConfigError::MissingStateDir.message(),
        "failed to read STATE_DIR environment variable"
    );
}

#[test]
fn config_get_falls_back_to_the_default() {
    let c = Config::get(None);
    assert_eq!(c.dolphin_path(), "./resources/dolphins.txt");
    assert_eq!(c.state_dir(), "./state/");
    let stored = Config::from_vars(Some("a".to_string()), Some("b".to_string())).unwrap();
    let got = Config::get(Some(&stored));
    assert_eq!(got.dolphin_path(), "a");
    assert_eq!(got.state_dir(), "b");
}

#[test]
fn db_path_joins_like_path_push() {
    assert_eq!(DB_FILE, "db.sqlite");
    assert_eq!(Config::default().db_path(), "./state/db.sqlite");
    let c = Config::from_vars(Some("d".to_string()), Some("/srv/alfred".to_string())).unwrap();
    assert_eq!(c.db_path(), "/srv/alfred/db.sqlite");
    let mut p = std::path::PathBuf::from("/srv/alfred");
    p.push("db.sqlite");
    assert_eq!(c.db_path(), p.to_str().unwrap());
    let empty = Config::from_vars(Some("d".to_string()), Some(String::new())).unwrap();
    assert_eq!(empty.db_path(), "db.sqlite");
}

#[test]
fn no_dolphin_error_message() {
    assert_eq!(NoDolphinError.message(), "no dolphin found");
}

#[test]
fn command_check_outside_guilds_and_unknown_guilds() {
    let mut state = State::new();
    assert!(command_check(&state, None, "cat"));
    assert!(command_check(&state, Some(1), "cat"));
    state.disabled_commands.insert(1, vec!["cat".to_string(), "dog".to_string()]);
    assert!(!command_check(&state, Some(1), "cat"));
    assert!(!command_check(&state, Some(1), "dog"));
    assert!(command_check(&state, Some(1), "fox"));
    assert!(command_check(&state, Some(2), "cat"));
    assert!(command_check(&state, None, "cat"));
    assert!(State::default().disabled_commands.is_empty());
}

#[test]
fn disable_lists_a_name_once() {
    let mut state = State::new();
    state.disable(3, "cat".to_string());
    state.disable(3, "cat".to_string());
    state.disable(3, "dog".to_string());
    state.disable(4, "cat".to_string());
    assert_eq!(state.disabled_commands[&3], vec!["cat".to_string(), "dog".to_string()]);
    assert_eq!(state.disabled_commands[&4], vec!["cat".to_string()]);
    assert!(!command_check(&state, Some(3), "dog"));
    assert!(command_check(&state, Some(4), "dog"));
}
