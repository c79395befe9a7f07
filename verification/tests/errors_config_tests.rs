use eigen_core::config::{
    extract_api_key_from_content, resolve_config_dir, ConfigManager, Credentials, Settings, State,
    SyncthingConfig,
};
use eigen_core::errors::{ErrorKind, SyncthingError};

#[test]
fn new_error_derives_recoverability_from_its_kind() {
    let e = SyncthingError::new(ErrorKind::Network, "boom");
    assert_eq!(e.kind, ErrorKind::Network);
    assert_eq!(e.message, "boom");
    assert!(e.recoverable);
    assert!(e.context.is_none());
    assert!(e.recovery_hint.is_none());

    let e = SyncthingError::new(ErrorKind::Process, "boom");
    assert!(!e.recoverable);
    let e = SyncthingError::new(ErrorKind::Lock, "busy");
    assert!(e.recoverable);
}

#[test]
fn error_builders_set_context_recoverability_and_hint() {
    let e = SyncthingError::new(ErrorKind::Process, "failed")
        .with_context("folder-1")
        .with_recoverable(true)
        .with_recovery_hint("try again");
    assert_eq!(e.context, Some("folder-1".to_string()));
    assert!(e.recoverable);
    assert_eq!(e.recovery_hint, Some("try again".to_string()));
}

#[test]
fn convenience_constructors_compose_their_messages() {
    let e = SyncthingError::not_found("Version file");
    assert_eq!(e.kind, ErrorKind::NotFound);
    assert_eq!(e.message, "Version file not found");
    assert!(!e.recoverable);

    let e = SyncthingError::already_exists("Destination file");
    assert_eq!(e.kind, ErrorKind::AlreadyExists);
    assert_eq!(e.message, "Destination file already exists");

    let e = SyncthingError::not_running();
    assert_eq!(e.kind, ErrorKind::NotRunning);
    assert_eq!(e.message, "Syncthing is not running");
    assert!(e.recoverable);
    assert_eq!(
        e.recovery_hint,
        Some("Start Syncthing or wait for it to initialize".to_string())
    );

    let e = SyncthingError::http("HTTP 500: oops");
    assert_eq!(e.kind, ErrorKind::Network);
    let e = SyncthingError::parse("bad json");
    assert_eq!(e.kind, ErrorKind::Parse);
    let e = SyncthingError::process("io");
    assert_eq!(e.kind, ErrorKind::Process);
    let e = SyncthingError::config("bad");
    assert_eq!(e.kind, ErrorKind::Config);
    let e = SyncthingError::validation("bad id");
    assert_eq!(e.kind, ErrorKind::Validation);
    assert!(!e.recoverable);
    let e = SyncthingError::lock("busy");
    assert_eq!(e.kind, ErrorKind::Lock);
}

#[test]
fn display_string_appends_the_context_in_parentheses() {
    let e = SyncthingError::process("delete failed").with_context("a.txt");
    assert_eq!(e.display_string(), "delete failed (a.txt)");
    let e = SyncthingError::process("delete failed");
    assert_eq!(e.display_string(), "delete failed");
}

#[test]
fn syncthing_config_keeps_its_values() {
    let c = SyncthingConfig::new("key".to_string(), "127.0.0.1".to_string(), 8384);
    assert_eq!(c.api_key, "key");
    assert_eq!(c.host, "127.0.0.1");
    assert_eq!(c.port, 8384);
}

#[test]
fn api_key_extraction_finds_the_first_tag_pair() {
    let content = "<config><gui><apikey>SECRET-REDACTED</apikey></gui></config>";
    assert_eq!(
        extract_api_key_from_content(content),
        Some("SECRET-REDACTED".to_string())
    );
    assert_eq!(extract_api_key_from_content("<config></config>"), None);
    assert_eq!(
        extract_api_key_from_content("<apikey></apikey>"),
        None,
        "an empty key is treated as absent"
    );
    assert_eq!(extract_api_key_from_content("<apikey>unterminated"), None);
}

#[test]
fn settings_defaults_match_the_schema() {
    let s = Settings::default();
    assert_eq!(s.version, "1.0.0");
    assert_eq!(s.syncthing.base_url, "http://localhost:8384");
    assert!(s.syncthing.api_key.is_none());
    assert!(s.syncthing.auto_start);
    assert_eq!(s.ui.theme, "dark");
    assert!(s.ui.enable_notifications);
    assert!(!s.ui.compact_mode);
    assert_eq!(s.ai.embedding_model, "all-MiniLM-L6-v2");
    assert!(!s.ai.index_on_startup);
    assert_eq!(s.performance.refresh_interval_ms, 5000);
    assert_eq!(s.performance.max_cached_files, 10000);
    assert!(s.performance.enable_file_indexing);
}

#[test]
fn credentials_and_state_defaults_are_empty() {
    let c = Credentials::default();
    assert_eq!(c.version, "1.0.0");
    assert!(c.syncthing.api_key.is_none());
    assert!(c.s3.access_key_id.is_none());
    assert!(c.s3.secret_access_key.is_none());

    let st = State::default();
    assert_eq!(st.version, "1.0.0");
    assert!(st.ui.window_width.is_none());
    assert!(!st.ui.sidebar_collapsed);
    assert_eq!(st.ui.last_selected_view, "overview");
    assert_eq!(st.stats.total_launches, 0);
    assert!(st.stats.last_launch_timestamp.is_none());
}

#[test]
fn config_dir_prefers_the_xdg_variable() {
    assert_eq!(
        resolve_config_dir(Some("/xdg"), Some("/home/u")),
        Ok("/xdg/eigen".to_string())
    );
    assert_eq!(
        resolve_config_dir(None, Some("/home/u")),
        Ok("/home/u/.config/eigen".to_string())
    );
    assert_eq!(
        resolve_config_dir(None, None),
        Err("Could not determine home directory".to_string())
    );
}

#[test]
fn config_manager_joins_its_file_paths() {
    let m = ConfigManager::new("/home/u/.config/eigen".to_string());
    assert_eq!(m.settings_path(), "/home/u/.config/eigen/settings.json");
    assert_eq!(m.credentials_path(), "/home/u/.config/eigen/credentials.json");
    assert_eq!(m.state_path(), "/home/u/.config/eigen/state.json");
    assert_eq!(m.get_config_dir_path(), "/home/u/.config/eigen");
}
