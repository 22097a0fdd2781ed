use omd_transfer::{Config, ConfigError, ErrorStrategy, OverwriteStrategy, Settings};

const FULL: &str = r#"
error_strategy = "continue"
overwrite_strategy = "overwrite"
power_off = true

[incremental]
download_directory = "/home/me/camera"

[transfer_order]
download_directory = "/home/me/order"

[wifi]
interface = "wlan0"
ssid = "E-M10-P-ABC"
"#;

fn settings() -> Settings {
    Settings {
        error_strategy: Some(Some(String::from("abort"))),
        overwrite_strategy: Some(Some(String::from("skip"))),
        incremental_directory: None,
        transfer_order_directory: None,
        power_off: Some(false),
        wifi_interface: None,
        wifi_ssid: None,
    }
}

#[test]
fn strategies_are_named_in_lower_case() {
    assert_eq!(ErrorStrategy::from_str("abort"), Some(ErrorStrategy::Abort));
    assert_eq!(ErrorStrategy::from_str("continue"), Some(ErrorStrategy::Continue));
    assert_eq!(ErrorStrategy::from_str("Abort"), None);
    assert_eq!(ErrorStrategy::from_str("skip"), None);
    assert_eq!(ErrorStrategy::from_str(""), None);
    assert_eq!(OverwriteStrategy::from_str("overwrite"), Some(OverwriteStrategy::Overwrite));
    assert_eq!(OverwriteStrategy::from_str("skip"), Some(OverwriteStrategy::Skip));
    assert_eq!(OverwriteStrategy::from_str("SKIP"), None);
    assert_eq!(OverwriteStrategy::from_str("abort"), None);
}

#[test]
fn a_full_configuration_is_read() {
    let config = Config::from_file(FULL).unwrap();
    assert_eq!(config.error_strategy, ErrorStrategy::Continue);
    assert_eq!(config.overwrite_strategy, OverwriteStrategy::Overwrite);
    assert!(config.power_off);
    assert_eq!(config.download_dir.as_deref(), Some("/home/me/camera"));
    assert_eq!(config.transfer_order_dir.as_deref(), Some("/home/me/order"));
    let wifi = config.wifi.unwrap();
    assert_eq!(wifi.interface, "wlan0");
    assert_eq!(wifi.ssid, "E-M10-P-ABC");
}

#[test]
fn the_template_is_a_configuration() {
    let config = Config::from_file(Config::template()).unwrap();
    assert_eq!(config.error_strategy, ErrorStrategy::Abort);
    assert_eq!(config.overwrite_strategy, OverwriteStrategy::Skip);
    assert!(!config.power_off);
    assert_eq!(config.download_dir.as_deref(), Some("/home/user/Pictures/camera"));
    assert_eq!(config.transfer_order_dir.as_deref(), Some("/home/user/Pictures/camera/order"));
    assert!(config.wifi.is_none());
}

#[test]
fn optional_sections_may_be_left_out() {
    let text = "error_strategy = \"abort\"\noverwrite_strategy = \"skip\"\npower_off = false\n";
    let config = Config::from_file(text).unwrap();
    assert!(config.download_dir.is_none());
    assert!(config.transfer_order_dir.is_none());
    assert!(config.wifi.is_none());
}

#[test]
fn half_a_wifi_section_is_none() {
    let text = "error_strategy = \"abort\"\noverwrite_strategy = \"skip\"\npower_off = false\n[wifi]\ninterface = \"wlan0\"\n";
    assert!(Config::from_file(text).unwrap().wifi.is_none());
    let text = "error_strategy = \"abort\"\noverwrite_strategy = \"skip\"\npower_off = false\n[wifi]\nssid = \"E-M10\"\n";
    assert!(Config::from_file(text).unwrap().wifi.is_none());
}

#[test]
fn faults_are_reported_in_order() {
    let fault = |text: &str| Config::from_file(text).unwrap_err();
    assert_eq!(fault("this is = not toml ["), ConfigError::NotToml);
    assert_eq!(fault(""), ConfigError::ErrorStrategyMissing);
    assert_eq!(fault("overwrite_strategy = \"skip\"\npower_off = false\n"), ConfigError::ErrorStrategyMissing);
    assert_eq!(fault("error_strategy = \"stop\"\n"), ConfigError::ErrorStrategyInvalid);
    assert_eq!(fault("error_strategy = 3\n"), ConfigError::ErrorStrategyInvalid);
    assert_eq!(fault("error_strategy = \"abort\"\n"), ConfigError::OverwriteStrategyMissing);
    assert_eq!(
        fault("error_strategy = \"abort\"\noverwrite_strategy = \"replace\"\n"),
        ConfigError::OverwriteStrategyInvalid
    );
    assert_eq!(
        fault("error_strategy = \"abort\"\noverwrite_strategy = true\n"),
        ConfigError::OverwriteStrategyInvalid
    );
    assert_eq!(
        fault("error_strategy = \"abort\"\noverwrite_strategy = \"skip\"\n"),
        ConfigError::PowerOffMissing
    );
    assert_eq!(
        fault("error_strategy = \"abort\"\noverwrite_strategy = \"skip\"\npower_off = \"no\"\n"),
        ConfigError::PowerOffMissing
    );
}

#[test]
fn settings_of_the_wrong_kind_count_as_missing() {
    let text = "error_strategy = \"abort\"\noverwrite_strategy = \"skip\"\npower_off = false\nincremental = \"here\"\n[transfer_order]\ndownload_directory = 7\n";
    let config = Config::from_file(text).unwrap();
    assert!(config.download_dir.is_none());
    assert!(config.transfer_order_dir.is_none());
}

#[test]
fn settings_are_judged_one_by_one() {
    let config = Config::from_settings(settings()).unwrap();
    assert_eq!(config.error_strategy, ErrorStrategy::Abort);
    assert_eq!(config.overwrite_strategy, OverwriteStrategy::Skip);
    assert!(!config.power_off);
    assert!(config.wifi.is_none());

    let fault = |s: Settings| Config::from_settings(s).unwrap_err();
    assert_eq!(fault(Settings { error_strategy: None, ..settings() }), ConfigError::ErrorStrategyMissing);
    assert_eq!(fault(Settings { error_strategy: Some(None), ..settings() }), ConfigError::ErrorStrategyInvalid);
    assert_eq!(
        fault(Settings { error_strategy: Some(Some(String::from("skip"))), ..settings() }),
        ConfigError::ErrorStrategyInvalid
    );
    assert_eq!(fault(Settings { overwrite_strategy: None, ..settings() }), ConfigError::OverwriteStrategyMissing);
    assert_eq!(
        fault(Settings { overwrite_strategy: Some(None), ..settings() }),
        ConfigError::OverwriteStrategyInvalid
    );
    assert_eq!(fault(Settings { power_off: None, ..settings() }), ConfigError::PowerOffMissing);
    assert_eq!(
        fault(Settings { error_strategy: None, overwrite_strategy: None, power_off: None, ..settings() }),
        ConfigError::ErrorStrategyMissing
    );

    let both = Settings {
        wifi_interface: Some(String::from("wlan0")),
        wifi_ssid: Some(String::from("E-M10")),
        incremental_directory: Some(String::from("/a")),
        transfer_order_directory: Some(String::from("/b")),
        ..settings()
    };
    let config = Config::from_settings(both).unwrap();
    assert_eq!(config.wifi.unwrap().ssid, "E-M10");
    assert_eq!(config.download_dir.as_deref(), Some("/a"));
    assert_eq!(config.transfer_order_dir.as_deref(), Some("/b"));
    assert!(Config::from_settings(Settings { wifi_ssid: Some(String::from("E-M10")), ..settings() })
        .unwrap()
        .wifi
        .is_none());
}
