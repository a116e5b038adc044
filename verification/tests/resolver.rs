use std::path::PathBuf;

use configr::error::ConfigError;
use configr::resolver::{
    fallback, first_plan, require_user_dir, system_or_local_dir, user_config_dir, user_plan, Plan,
};

#[test]
fn system_directory_is_etc_on_unix() {
    assert_eq!(system_or_local_dir(true), PathBuf::from("/etc"));
}

#[test]
fn local_directory_is_the_working_directory_elsewhere() {
    assert_eq!(system_or_local_dir(false), PathBuf::from("./"));
}

#[test]
fn missing_user_directory_is_config_dir() {
    assert!(matches!(require_user_dir(None), Err(ConfigError::ConfigDir)));
    assert!(matches!(user_plan(None), Plan::Fail(ConfigError::ConfigDir)));
}

#[test]
fn offered_user_directory_is_taken() {
    let dir = PathBuf::from("/home/alice/.config");
    assert_eq!(require_user_dir(Some(dir.clone())).unwrap(), dir);
    match user_plan(Some(dir.clone())) {
        Plan::TryUser(base) => assert_eq!(base, dir),
        other => panic!("expected TryUser, got {:?}", other),
    }
}

#[test]
fn user_config_dir_is_what_the_system_offers() {
    match (user_config_dir(), dirs::config_dir()) {
        (Ok(dir), Some(offered)) => assert_eq!(dir, offered),
        (Err(ConfigError::ConfigDir), None) => {}
        other => panic!("resolver and system disagree: {:?}", other),
    }
}

#[test]
fn unforced_load_begins_at_the_system_directory() {
    match first_plan(false, true) {
        Plan::TrySystem(base) => assert_eq!(base, PathBuf::from("/etc")),
        other => panic!("expected TrySystem, got {:?}", other),
    }
    match first_plan(false, false) {
        Plan::TrySystem(base) => assert_eq!(base, PathBuf::from("./")),
        other => panic!("expected TrySystem, got {:?}", other),
    }
}

#[test]
fn forced_load_skips_the_system_directory() {
    for unix in [true, false] {
        match (first_plan(true, unix), dirs::config_dir()) {
            (Plan::TryUser(base), Some(offered)) => assert_eq!(base, offered),
            (Plan::Fail(ConfigError::ConfigDir), None) => {}
            other => panic!("plan and system disagree: {:?}", other),
        }
    }
}

#[test]
fn success_at_the_system_directory_is_final() {
    let first: Result<u32, ConfigError> = Ok(17);
    assert!(matches!(fallback(first), Ok(17)));
}

#[test]
fn any_failure_at_the_system_directory_leads_to_the_user_directory() {
    let failures: Vec<Result<u32, String>> =
        vec![Err("permission denied".to_string()), Err("does not parse".to_string())];
    for first in failures {
        match (fallback(first), dirs::config_dir()) {
            (Err(Plan::TryUser(base)), Some(offered)) => assert_eq!(base, offered),
            (Err(Plan::Fail(ConfigError::ConfigDir)), None) => {}
            other => panic!("plan and system disagree: {:?}", other),
        }
    }
}
