use synchrosonic::error::{ConfigError, IoErrorKind, IoFailure};
use synchrosonic::startup::{startup_plan, StartupPlan};
use synchrosonic::config::{AppConfig, ConfigLoadReport};
use synchrosonic::diagnostics::DiagnosticLevel;
use synchrosonic::logging::{LogStore, StructuredLogEntry};
use synchrosonic::startup::{
    default_config_root, default_state_root, invalid_config_backup_name, join_path,
    loaded_config_events, missing_config_event, needs_write_back, unusable_config_events, AppPaths,
};

fn entry(timestamp: u64, message: &str) -> StructuredLogEntry {
    StructuredLogEntry {
        timestamp_unix_ms: timestamp,
        level: "INFO".to_string(),
        target: "test".to_string(),
        message: message.to_string(),
        fields: Vec::new(),
        file: None,
        line: None,
    }
}

#[test]
fn log_store_retains_recent_entries() {
    let mut store = LogStore::new(2);
    store.push(entry(1, "first"));
    store.push(entry(2, "second"));
    store.push(entry(3, "third"));

    let recent = store.snapshot_recent(10);
    assert_eq!(recent.len(), 2);
    assert_eq!(recent[0].message, "third");
    assert_eq!(recent[1].message, "second");
}

#[test]
fn log_store_lists_recent_entries_in_either_order() {
    let mut store = LogStore::new(5);
    for index in 0..5u64 {
        store.push(entry(index, &format!("entry {index}")));
    }

    let newest_first: Vec<u64> = store
        .snapshot_recent(3)
        .iter()
        .map(|entry| entry.timestamp_unix_ms)
        .collect();
    let chronological: Vec<u64> = store
        .snapshot_recent_chronological(3)
        .iter()
        .map(|entry| entry.timestamp_unix_ms)
        .collect();
    assert_eq!(newest_first, vec![4, 3, 2]);
    assert_eq!(chronological, vec![2, 3, 4]);

    store.replace_with_tail((10..20u64).map(|index| entry(index, "old")).collect(), 3);
    assert_eq!(store.len(), 3);
    assert_eq!(store.snapshot_recent(1)[0].timestamp_unix_ms, 19);

    let mut empty = LogStore::new(0);
    empty.push(entry(1, "dropped"));
    assert_eq!(empty.len(), 0);
}

#[test]
fn app_paths_are_laid_out_under_their_roots() {
    let paths = AppPaths::under("/tmp/config", "/tmp/state/");

    assert_eq!(paths.config_dir, "/tmp/config/synchrosonic");
    assert_eq!(paths.state_dir, "/tmp/state/synchrosonic");
    assert_eq!(paths.config_path, "/tmp/config/synchrosonic/config.toml");
    assert_eq!(
        paths.portable_config_path,
        "/tmp/config/synchrosonic/config-export.toml"
    );
    assert_eq!(paths.log_path, "/tmp/state/synchrosonic/app-log.jsonl");
    assert!(paths.config_path.starts_with("/tmp/config"));
    assert!(paths.log_path.starts_with("/tmp/state"));
    assert_eq!(join_path("", "x"), "x");
}

#[test]
fn default_roots_follow_xdg_then_home() {
    assert_eq!(default_config_root(Some("/xdg"), Some("/home/u")), "/xdg");
    assert_eq!(default_config_root(None, Some("/home/u")), "/home/u/.config");
    assert_eq!(default_config_root(None, None), ".");
    assert_eq!(default_state_root(None, Some("/home/u")), "/home/u/.local/state");
    assert_eq!(invalid_config_backup_name(42), "config.invalid-42.toml");
}

#[test]
fn missing_config_is_reported_as_created_or_unsaved() {
    let created = missing_config_event("/c/config.toml", None);
    assert_eq!(created.level, DiagnosticLevel::Info);
    assert_eq!(created.component, "config");
    assert!(created.message.contains("created a default config"));

    let failed = missing_config_event("/c/config.toml", Some("read-only"));
    assert_eq!(failed.level, DiagnosticLevel::Warning);
    assert!(failed.message.ends_with("saving /c/config.toml failed: read-only"));
}

#[test]
fn unusable_config_reports_fallback_and_backup() {
    let events = unusable_config_events(
        "/c/config.toml",
        "bad schema",
        Some("/c/config.invalid-1.toml"),
        Some("disk full"),
    );

    assert_eq!(events.len(), 2);
    assert_eq!(
        events[0].message,
        "Saved configuration could not be used (bad schema); falling back to defaults. A backup was written to /c/config.invalid-1.toml."
    );
    assert!(events[0].message.contains("falling back to defaults"));
    assert_eq!(
        events[1].message,
        "Default configuration could not be re-saved to /c/config.toml: disk full"
    );
    assert_eq!(unusable_config_events("/c", "e", None, None).len(), 1);
}

#[test]
fn repaired_config_is_written_back_and_reported() {
    let report = ConfigLoadReport {
        config: AppConfig::default(),
        warnings: vec!["port repaired".to_string(), "rate repaired".to_string()],
        repaired: true,
    };
    assert!(needs_write_back(&report));

    let events = loaded_config_events("/c/config.toml", &report, Some("denied"));
    let messages: Vec<&str> = events.iter().map(|event| event.message.as_str()).collect();
    assert_eq!(
        messages,
        vec![
            "Saved configuration at /c/config.toml was repaired before use.",
            "port repaired",
            "rate repaired",
            "Repaired configuration could not be written back to /c/config.toml: denied",
        ]
    );

    let clean = ConfigLoadReport {
        config: AppConfig::default(),
        warnings: Vec::new(),
        repaired: false,
    };
    assert!(!needs_write_back(&clean));
    let events = loaded_config_events("/c/config.toml", &clean, None);
    assert_eq!(events.len(), 1);
    assert_eq!(events[0].level, DiagnosticLevel::Info);
    assert_eq!(events[0].message, "Loaded configuration from /c/config.toml.");
}

#[test]
fn startup_plan_follows_the_load_result() {
    let loaded: Result<ConfigLoadReport, ConfigError> =
        Ok(ConfigLoadReport { config: AppConfig::default(), warnings: Vec::new(), repaired: false });
    assert_eq!(startup_plan(&loaded), StartupPlan::UseLoaded);
    let missing: Result<ConfigLoadReport, ConfigError> = Err(ConfigError::Read {
        path: "/cfg/config.toml".to_string(),
        source: IoFailure { kind: IoErrorKind::NotFound, message: "missing".to_string() },
    });
    assert_eq!(startup_plan(&missing), StartupPlan::CreateDefault);
    let denied: Result<ConfigLoadReport, ConfigError> = Err(ConfigError::Read {
        path: "/cfg/config.toml".to_string(),
        source: IoFailure { kind: IoErrorKind::PermissionDenied, message: "denied".to_string() },
    });
    assert_eq!(startup_plan(&denied), StartupPlan::ReplaceUnusable);
    let broken: Result<ConfigLoadReport, ConfigError> =
        Err(ConfigError::Parse { path: "/cfg/config.toml".to_string(), message: "bad".to_string() });
    assert_eq!(startup_plan(&broken), StartupPlan::ReplaceUnusable);
}
