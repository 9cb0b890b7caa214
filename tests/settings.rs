use fakeroot::config::{get_fake_root, is_enabled, ConfigError, PolicyFlags, ENV_FAKEROOT};

#[test]
fn test_is_enabled() {
    assert_eq!(is_enabled(None), false);
    assert_eq!(is_enabled(Some("false")), false);
    assert_eq!(is_enabled(Some("0")), false);
    assert_eq!(is_enabled(Some("true")), true);
    assert_eq!(is_enabled(Some("1")), true);
    assert_eq!(is_enabled(Some("anything")), true);
}

#[test]
fn flag_parsing_is_exact() {
    assert_eq!(is_enabled(Some("")), true);
    assert_eq!(is_enabled(Some("False")), true);
    assert_eq!(is_enabled(Some("00")), true);
    assert_eq!(is_enabled(Some(" 0")), true);
    assert_eq!(is_enabled(Some("falsey")), true);
}

#[test]
fn root_unset_is_missing_config() {
    assert_eq!(get_fake_root(None, true), Err(ConfigError::MissingConfig));
}

#[test]
fn relative_root_is_rejected() {
    assert_eq!(get_fake_root(Some("tmp/X"), true), Err(ConfigError::NotAbsolute));
    assert_eq!(get_fake_root(Some(""), true), Err(ConfigError::NotAbsolute));
}

#[test]
fn root_absent_from_disk_is_rejected() {
    assert_eq!(get_fake_root(Some("/tmp/X"), false), Err(ConfigError::RootNotFound));
}

#[test]
fn valid_root_is_kept_verbatim() {
    assert_eq!(get_fake_root(Some("/tmp/X"), true), Ok(String::from("/tmp/X")));
    assert_eq!(get_fake_root(Some("/"), true), Ok(String::from("/")));
}

#[test]
fn policy_flags_read_each_setting() {
    let flags = PolicyFlags::from_settings(Some("1"), None, Some("0"));
    assert!(flags.dirs_enabled);
    assert!(!flags.allow_missing);
    assert!(!flags.debug_enabled);
    let flags = PolicyFlags::from_settings(Some("false"), Some("yes"), Some("true"));
    assert!(!flags.dirs_enabled);
    assert!(flags.allow_missing);
    assert!(flags.debug_enabled);
}

#[test]
fn root_setting_key_name() {
    assert_eq!(ENV_FAKEROOT, "FAKEROOT");
}
