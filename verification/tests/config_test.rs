use eyeclipse::config::{join_path, ApiBackend, AppConfig, ConfigError, TranslationMode};

#[test]
fn test_default_config() {
    let config = AppConfig::default();
    assert_eq!(config.hotkey, "Super+Shift+S");
    assert_eq!(config.source_lang, "ja");
    assert_eq!(config.target_lang, "en");
    assert_eq!(config.api_backend, ApiBackend::Deepl);
    assert_eq!(config.mode, TranslationMode::Oneshot);
    assert_eq!(config.live_interval_ms, 1000);
    assert_eq!(config.ocr_lang, "jpn+eng");
    assert!(config.api_key.is_empty());
    assert!(config.api_url.is_empty());
}

#[test]
fn default_settle_time_is_one_and_a_half_seconds() {
    assert_eq!(AppConfig::default().settle_time_ms, 1500);
}

#[test]
fn config_path_under_user_config_dir() {
    let p = AppConfig::config_path_under(Some("/home/u/.config".to_string())).unwrap();
    assert_eq!(p, "/home/u/.config/eyeclipse/config.toml");
    let d = AppConfig::config_dir_under(Some("/home/u/.config/".to_string())).unwrap();
    assert_eq!(d, "/home/u/.config/eyeclipse");
}

#[test]
fn config_path_without_config_dir_is_an_error() {
    let e = AppConfig::config_path_under(None).unwrap_err();
    assert_eq!(e, ConfigError::NoConfigDir);
    assert_eq!(e.message(), "Could not determine config directory");
}

#[test]
fn config_path_from_environment_ends_with_file_name() {
    if let Ok(p) = AppConfig::config_path() {
        assert!(p.ends_with("/eyeclipse/config.toml"));
        let d = AppConfig::config_dir().unwrap();
        assert_eq!(format!("{}/config.toml", d), p);
    }
}

#[test]
fn path_join_follows_pathbuf_rules() {
    assert_eq!(join_path("a", "b"), "a/b");
    assert_eq!(join_path("a/", "b"), "a/b");
    assert_eq!(join_path("", "b"), "b");
    assert_eq!(join_path("a", "/b"), "/b");
}

#[test]
fn toggled_mode_switches_and_back() {
    assert_eq!(TranslationMode::Oneshot.toggled(), TranslationMode::Live);
    assert_eq!(TranslationMode::Live.toggled(), TranslationMode::Oneshot);
    assert_eq!(TranslationMode::Live.toggled().toggled(), TranslationMode::Live);
}
