use modem_telemetry::settings::LogSettings;

#[test]
fn settings_default_to_info_and_backtraces() {
    assert_eq!(
        LogSettings::resolve(None, None),
        LogSettings { filter: "info".to_string(), backtrace: "1".to_string() }
    );
}

#[test]
fn settings_keep_what_is_given() {
    assert_eq!(
        LogSettings::resolve(Some("debug,hyper=warn".to_string()), Some("0".to_string())),
        LogSettings { filter: "debug,hyper=warn".to_string(), backtrace: "0".to_string() }
    );
    assert_eq!(
        LogSettings::resolve(Some(String::new()), None),
        LogSettings { filter: String::new(), backtrace: "1".to_string() }
    );
    assert_eq!(
        LogSettings::resolve(None, Some("full".to_string())),
        LogSettings { filter: "info".to_string(), backtrace: "full".to_string() }
    );
}
