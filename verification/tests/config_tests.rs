use scrat::config::{Config, HooksConfig, LogLevel};

#[test]
fn test_default_config() {
    let config = Config::default();
    assert_eq!(config.log_level, LogLevel::Info);
    assert!(config.log_dir.is_none());
}

#[test]
fn test_default_config_has_no_sections() {
    let config = Config::default();
    assert!(config.project.is_none());
    assert!(config.version.is_none());
    assert!(config.commands.is_none());
    assert!(config.release.is_none());
}

#[test]
fn test_config_ship_defaults_to_none() {
    let config = Config::default();
    assert!(config.ship.is_none());
}

#[test]
fn log_level_as_str() {
    assert_eq!(LogLevel::Debug.as_str(), "debug");
    assert_eq!(LogLevel::Info.as_str(), "info");
    assert_eq!(LogLevel::Warn.as_str(), "warn");
    assert_eq!(LogLevel::Error.as_str(), "error");
}

#[test]
fn hooks_config_default_has_no_lists() {
    let hooks = HooksConfig::default();
    assert!(hooks.pre_ship.is_none());
    assert!(hooks.post_ship.is_none());
    assert!(hooks.pre_test.is_none());
    assert!(hooks.post_release.is_none());
}
