use jwctl::{
    auth_path, client_path, client_token_path, config_dir, config_file, encoded_login_target,
    log_level_choice, manifest_path, merge_config, proxy_schemas_path, timestamp_level_choice,
    ConfigError, LogLevel,
};

#[test]
fn manifest_path_appends_the_identifier() {
    assert_eq!(manifest_path("postgresql"), "/api/v1/manifests/postgresql");
    assert_eq!(manifest_path("123-abc"), "/api/v1/manifests/123-abc");
}

#[test]
fn auth_path_appends_the_token() {
    assert_eq!(auth_path("tok123"), "/api/v1/auth/tok123");
}

#[test]
fn client_paths_append_identifier_and_suffix() {
    assert_eq!(client_path("c1"), "/api/v1/client/c1");
    assert_eq!(client_token_path("c1"), "/api/v1/client/c1/token");
}

#[test]
fn proxy_schemas_path_keeps_the_double_slash() {
    assert_eq!(
        proxy_schemas_path("m-9"),
        "/api/v1/manifests/m-9//proxy-schemas"
    );
}

#[test]
fn login_target_is_percent_encoded() {
    assert_eq!(encoded_login_target(), "%2Fsso%2Fresult");
}

#[test]
fn config_paths_sit_under_the_home_directory() {
    match home::home_dir() {
        Some(h) => {
            let home = h.to_string_lossy().into_owned();
            assert_eq!(config_dir().unwrap(), format!("{}/.config/jwctl", home));
            assert_eq!(
                config_file().unwrap(),
                format!("{}/.config/jwctl/config.yaml", home)
            );
        },
        None => {
            assert_eq!(config_dir().unwrap_err(), ConfigError::HomeDirUnavailable);
            assert_eq!(config_file().unwrap_err(), ConfigError::HomeDirUnavailable);
        },
    }
}

#[test]
fn merge_prefers_cli_then_env_then_file() {
    let c = merge_config(
        Some("http://cli".to_string()),
        Some("http://env".to_string()),
        Some("http://file".to_string()),
        Some("t-cli".to_string()),
        Some("t-env".to_string()),
        Some("t-stored".to_string()),
        Some("t-file".to_string()),
    )
    .unwrap();
    assert_eq!(c.url, "http://cli");
    assert_eq!(c.token, Some("t-cli".to_string()));
}

#[test]
fn merge_falls_back_source_by_source() {
    let c = merge_config(
        None,
        Some("http://env".to_string()),
        Some("http://file".to_string()),
        None,
        None,
        Some("t-stored".to_string()),
        Some("t-file".to_string()),
    )
    .unwrap();
    assert_eq!(c.url, "http://env");
    assert_eq!(c.token, Some("t-stored".to_string()));

    let c = merge_config(
        None,
        None,
        Some("http://file".to_string()),
        None,
        None,
        None,
        None,
    )
    .unwrap();
    assert_eq!(c.url, "http://file");
    assert_eq!(c.token, None);
}

#[test]
fn merge_without_any_url_is_rejected() {
    let e = merge_config(
        None,
        None,
        None,
        Some("t-cli".to_string()),
        None,
        None,
        None,
    )
    .unwrap_err();
    assert_eq!(e, ConfigError::MissingUrl);
}

#[test]
fn log_levels_follow_the_flags() {
    assert_eq!(log_level_choice(false), LogLevel::Info);
    assert_eq!(log_level_choice(true), LogLevel::Debug);
    assert_eq!(timestamp_level_choice(false), LogLevel::Trace);
    assert_eq!(timestamp_level_choice(true), LogLevel::Error);
}
