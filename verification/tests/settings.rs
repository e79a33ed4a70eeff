use yotibox::settings::{parse_settings, SettingsError};

#[test]
fn settings_with_both_strings() {
    let s = parse_settings(r#"{"rfid_spi_dev": "/dev/spidev0.0", "audio_base_dir": "/srv/audio", "rfid_poll_ms": 250}"#).unwrap();
    assert_eq!(s.rfid_spi_dev().unwrap(), Some("/dev/spidev0.0"));
    assert_eq!(s.audio_base_dir().unwrap(), Some("/srv/audio"));
}

#[test]
fn non_string_setting_gives_nothing() {
    let s = parse_settings(r#"{"rfid_spi_dev": 3, "audio_base_dir": "/a"}"#).unwrap();
    assert_eq!(s.rfid_spi_dev().unwrap(), None);
    assert_eq!(s.audio_base_dir().unwrap(), Some("/a"));
}

#[test]
fn missing_setting_fails_only_when_asked_for() {
    let s = parse_settings(r#"{"rfid_spi_dev": "/dev/x"}"#).unwrap();
    assert_eq!(s.rfid_spi_dev().unwrap(), Some("/dev/x"));
    assert!(matches!(s.audio_base_dir(), Err(SettingsError::MissingKey(ref k)) if k == "audio_base_dir"));
    let s = parse_settings(r#"{"audio_base_dir": "/a"}"#).unwrap();
    assert!(matches!(s.rfid_spi_dev(), Err(SettingsError::MissingKey(ref k)) if k == "rfid_spi_dev"));
    let s = parse_settings("[1]").unwrap();
    assert!(matches!(s.rfid_spi_dev(), Err(SettingsError::MissingKey(_))));
    assert!(matches!(s.audio_base_dir(), Err(SettingsError::MissingKey(_))));
}

#[test]
fn text_that_is_no_json_is_an_error() {
    assert!(matches!(parse_settings("rfid_spi_dev = x").unwrap_err(), SettingsError::NotJson));
}
