//! Tests for configuration defaults and validation.

use ccplayer::config::Config;

#[test]
fn test_default_config() {
    let config = Config::default();
    assert_eq!(config.window.width, 1280);
    assert_eq!(config.window.height, 720);
    assert!(!config.window.fullscreen);
    assert_eq!(config.audio.volume, 700_000);
}

#[test]
fn test_config_validation() {
    let mut config = Config::default();
    assert!(config.validate().is_ok());

    config.window.width = 0;
    assert!(config.validate().is_err());

    config.window.width = 1280;
    config.audio.volume = 1_500_000;
    assert!(config.validate().is_err());

    config.audio.volume = 500_000;
    config.general.log_level = "invalid".to_string();
    assert!(config.validate().is_err());
}
