use eigen_core::pending::{FolderType, VersioningConfig, VersioningType};

#[test]
fn folder_types_have_their_wire_names() {
    assert_eq!(FolderType::SendReceive.as_str(), "sendreceive");
    assert_eq!(FolderType::SendOnly.as_str(), "sendonly");
    assert_eq!(FolderType::ReceiveOnly.as_str(), "receiveonly");
    assert_eq!(FolderType::default(), FolderType::SendReceive);
}

#[test]
fn versioning_types_have_their_wire_names() {
    assert_eq!(VersioningType::Disabled.as_str(), "");
    assert_eq!(VersioningType::TrashCan.as_str(), "trashcan");
    assert_eq!(VersioningType::Simple.as_str(), "simple");
    assert_eq!(VersioningType::Staggered.as_str(), "staggered");
    assert_eq!(VersioningType::External.as_str(), "external");
    assert_eq!(VersioningType::default(), VersioningType::Disabled);
}

#[test]
fn trashcan_versioning_defaults_its_cleanout_days() {
    let config = VersioningConfig { versioning_type: VersioningType::TrashCan, params: vec![] };
    assert_eq!(
        config.params_with_defaults(),
        vec![("cleanoutDays".to_string(), "0".to_string())]
    );
}

#[test]
fn simple_versioning_defaults_its_keep_count() {
    let config = VersioningConfig { versioning_type: VersioningType::Simple, params: vec![] };
    assert_eq!(
        config.params_with_defaults(),
        vec![("keep".to_string(), "5".to_string())]
    );
}

#[test]
fn staggered_versioning_defaults_interval_and_max_age() {
    let config = VersioningConfig { versioning_type: VersioningType::Staggered, params: vec![] };
    assert_eq!(
        config.params_with_defaults(),
        vec![
            ("cleanInterval".to_string(), "3600".to_string()),
            ("maxAge".to_string(), "31536000".to_string()),
        ]
    );
}

#[test]
fn external_versioning_defaults_an_empty_command() {
    let config = VersioningConfig { versioning_type: VersioningType::External, params: vec![] };
    assert_eq!(
        config.params_with_defaults(),
        vec![("command".to_string(), String::new())]
    );
}

#[test]
fn disabled_versioning_adds_no_parameters() {
    let config = VersioningConfig { versioning_type: VersioningType::Disabled, params: vec![] };
    assert!(config.params_with_defaults().is_empty());
}

#[test]
fn an_explicit_parameter_is_kept_over_the_default() {
    let config = VersioningConfig {
        versioning_type: VersioningType::Simple,
        params: vec![("keep".to_string(), "9".to_string())],
    };
    assert_eq!(
        config.params_with_defaults(),
        vec![("keep".to_string(), "9".to_string())]
    );
}

#[test]
fn unrelated_parameters_are_kept_and_defaults_appended() {
    let config = VersioningConfig {
        versioning_type: VersioningType::Staggered,
        params: vec![("maxAge".to_string(), "60".to_string())],
    };
    assert_eq!(
        config.params_with_defaults(),
        vec![
            ("maxAge".to_string(), "60".to_string()),
            ("cleanInterval".to_string(), "3600".to_string()),
        ]
    );
}
