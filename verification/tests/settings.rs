use cgroups_exporter::file_watcher::{
    config_format, reload_signals, watch_directory, ConfigFormat, WatchEventKind,
    DEBOUNCE_TIMEOUT_SECONDS,
};
use cgroups_exporter::logging::{LogFormat, LogLevel};
use cgroups_exporter::startup::{config_path, listen_addr, DEFAULT_LISTEN_ADDR};
use std::path::Path;

#[test]
fn only_create_modify_and_remove_are_changes() {
    assert!(WatchEventKind::Create.is_change());
    assert!(WatchEventKind::Modify.is_change());
    assert!(WatchEventKind::Remove.is_change());
    assert!(!WatchEventKind::Access.is_change());
    assert!(!WatchEventKind::Any.is_change());
    assert!(!WatchEventKind::Other.is_change());
    assert_eq!(DEBOUNCE_TIMEOUT_SECONDS, 2);
}

#[test]
fn reload_is_signalled_once_for_each_path_that_is_the_file() {
    assert_eq!(reload_signals(WatchEventKind::Modify, &vec![false, true, false]), 1);
    assert_eq!(reload_signals(WatchEventKind::Create, &vec![true, true]), 2);
    assert_eq!(reload_signals(WatchEventKind::Remove, &vec![true]), 1);
    assert_eq!(reload_signals(WatchEventKind::Modify, &vec![false, false]), 0);
    assert_eq!(reload_signals(WatchEventKind::Modify, &vec![]), 0);
}

#[test]
fn reload_is_not_signalled_for_other_events() {
    assert_eq!(reload_signals(WatchEventKind::Access, &vec![true, true]), 0);
    assert_eq!(reload_signals(WatchEventKind::Any, &vec![true]), 0);
    assert_eq!(reload_signals(WatchEventKind::Other, &vec![true]), 0);
}

#[test]
fn watch_directory_defaults_to_the_current_one() {
    assert_eq!(watch_directory(Some("/etc/exporter")), "/etc/exporter");
    assert_eq!(watch_directory(None), ".");
}

#[test]
fn config_format_follows_the_extension() {
    assert_eq!(config_format(Some("json")), ConfigFormat::Json);
    assert_eq!(config_format(Some("yml")), ConfigFormat::Yaml);
    assert_eq!(config_format(Some("yaml")), ConfigFormat::Yaml);
    assert_eq!(config_format(Some("JSON")), ConfigFormat::Yaml);
    assert_eq!(config_format(Some("")), ConfigFormat::Yaml);
    assert_eq!(config_format(None), ConfigFormat::Yaml);
}

#[test]
fn log_settings_have_lower_case_names() {
    assert_eq!(LogLevel::default(), LogLevel::Info);
    assert_eq!(LogFormat::default(), LogFormat::Pretty);
    for level in [LogLevel::Trace, LogLevel::Debug, LogLevel::Info, LogLevel::Warn, LogLevel::Error] {
        assert_eq!(LogLevel::parse(level.as_str()), Some(level));
    }
    for format in [LogFormat::Pretty, LogFormat::Json] {
        assert_eq!(LogFormat::parse(format.as_str()), Some(format));
    }
    assert_eq!(LogLevel::Warn.as_str(), "warn");
    assert_eq!(LogFormat::Json.as_str(), "json");
    assert_eq!(LogLevel::parse("INFO"), None);
    assert_eq!(LogLevel::parse("verbose"), None);
    assert_eq!(LogFormat::parse("text"), None);
}

#[test]
fn default_filter_quiets_the_libraries() {
    assert_eq!(
        LogLevel::Debug.default_filter(),
        "debug,tower_http=warn,hyper=warn,tokio_util=warn,axum=warn,notify=warn,notify_debouncer_full=warn"
    );
}

#[test]
fn config_path_prefers_the_command_line() {
    let cli = Path::new("/etc/cli.yml");
    let env = Path::new("/etc/env.yml");
    assert_eq!(config_path(Some(cli), Some(env)), Some(cli));
    assert_eq!(config_path(None, Some(env)), Some(env));
    assert_eq!(config_path(Some(cli), None), Some(cli));
    assert_eq!(config_path::<Path>(None, None), None);
}

#[test]
fn listen_addr_falls_back_in_order() {
    assert_eq!(listen_addr(Some("a"), Some("b"), DEFAULT_LISTEN_ADDR), "a");
    assert_eq!(listen_addr(None, Some("b"), DEFAULT_LISTEN_ADDR), "b");
    assert_eq!(listen_addr(None, None, DEFAULT_LISTEN_ADDR), "127.0.0.1:9753");
}
