use batman::config::{
    default_critical, default_low, default_refresh, Config, Thresholds, DEFAULT_CRITICAL,
    DEFAULT_LOW, DEFAULT_REFRESH,
};
use batman::Error;

/// Builds a `Config` from TOML text the way the daemon's front end
/// does: parse to a table, pull the known keys, default the rest.
fn config_from_toml(text: &str) -> Config {
    let table: toml::Table = toml::from_str(text).expect("TOML should parse");
    let refresh = table.get("refresh").map(|v| v.as_integer().unwrap() as u64);
    let low = table.get("low").map(|v| v.as_integer().unwrap() as u8);
    let critical = table.get("critical").map(|v| v.as_integer().unwrap() as u8);
    let locker = table
        .get("locker")
        .map(|v| v.as_str().unwrap().to_string());
    Config::from_parts(refresh, low, critical, locker)
}

#[test]
fn trivial() {
    let config = config_from_toml(
        r#"
        low = 10
        critical = 5
        refresh = 10
        locker = "i3lock"
            "#,
    );
    assert_eq!(config.low, 10);
    assert_eq!(config.critical, 5);
    assert_eq!(config.refresh, 10);
    assert_eq!(config.locker, Some("i3lock".to_string()));
}

#[test]
fn default() {
    let config = config_from_toml("");
    assert_eq!(config.low, DEFAULT_LOW);
    assert_eq!(config.critical, DEFAULT_CRITICAL);
    assert_eq!(config.refresh, DEFAULT_REFRESH);
    assert_eq!(config.locker, None);
}

#[test]
fn no_locker() {
    let config = config_from_toml(
        r#"
        low = 10
        critical = 5
            "#,
    );
    assert_eq!(config.low, 10);
    assert_eq!(config.critical, 5);
    assert_eq!(config.locker, None);
}

#[test]
fn default_helpers() {
    assert_eq!(default_low(), 15);
    assert_eq!(default_critical(), 10);
    assert_eq!(default_refresh(), 10);
    let c = Config::default();
    assert_eq!(c.low, 15);
    assert_eq!(c.critical, 10);
    assert_eq!(c.refresh, 10);
    assert_eq!(c.locker, None);
}

#[test]
fn validate_keeps_valid_pair() {
    let mut c = Config::from_parts(Some(30), Some(20), Some(10), None);
    c.validate();
    assert_eq!(c.low, 20);
    assert_eq!(c.critical, 10);
    assert_eq!(c.refresh, 30);
    let t = c.thresholds();
    assert_eq!((t.low, t.critical), (20, 10));
}

#[test]
fn validate_corrects_inconsistent_pair() {
    let mut c = Config::from_parts(None, Some(10), Some(20), None);
    c.validate();
    assert_eq!(c.low, DEFAULT_LOW);
    assert_eq!(c.critical, DEFAULT_CRITICAL);
}

#[test]
fn validate_corrects_out_of_range_values() {
    let mut c = Config::from_parts(None, Some(96), Some(10), None);
    c.validate();
    assert_eq!(c.low, DEFAULT_LOW);
    assert_eq!(c.critical, DEFAULT_CRITICAL);

    let mut c = Config::from_parts(None, Some(50), Some(4), None);
    c.validate();
    assert_eq!(c.low, DEFAULT_LOW);
    assert_eq!(c.critical, DEFAULT_CRITICAL);
}

#[test]
fn validate_low_reports_each_error() {
    let out_of_range = Config::from_parts(None, Some(96), Some(10), None);
    assert_eq!(
        out_of_range.validate_low(),
        Err(Error::ThresholdOutOfRange(96))
    );
    let inconsistent = Config::from_parts(None, Some(10), Some(20), None);
    assert_eq!(
        inconsistent.validate_low(),
        Err(Error::ThresholdInconsistent(10, 20))
    );
    let fine = Config::from_parts(None, Some(20), Some(10), None);
    assert_eq!(fine.validate_low(), Ok(20));
}

#[test]
fn validate_critical_reports_each_error() {
    let out_of_range = Config::from_parts(None, Some(50), Some(4), None);
    assert_eq!(
        out_of_range.validate_critical(),
        Err(Error::ThresholdOutOfRange(4))
    );
    let inconsistent = Config::from_parts(None, Some(10), Some(20), None);
    assert_eq!(
        inconsistent.validate_critical(),
        Err(Error::ThresholdInconsistent(10, 20))
    );
    let fine = Config::from_parts(None, Some(20), Some(10), None);
    assert_eq!(fine.validate_critical(), Ok(10));
}

#[test]
fn thresholds_new_reports_correction() {
    let (t, corrected) = Thresholds::new(20, 10);
    assert_eq!((t.low, t.critical), (20, 10));
    assert!(!corrected);

    let (t, corrected) = Thresholds::new(10, 20);
    assert_eq!((t.low, t.critical), (DEFAULT_LOW, DEFAULT_CRITICAL));
    assert!(corrected);

    let (t, corrected) = Thresholds::new(5, 5);
    assert_eq!((t.low, t.critical), (5, 5));
    assert!(!corrected);
}
