use processforlinux::config::{parse_bool, parse_config, parse_i64, Config, ConfigError, ConfigKey};

fn chars(s: &str) -> Vec<char> {
    s.chars().collect()
}

const GOOD: &str = "# settings\nAPI_URL=https://example.com/api?a=b\n\n  API_KEY=SECRET-REDACTED  \r\nWATCH_TIME=10\nMEDIA_ENABLE=false\nLOG_ENABLE=true\nOTHER=1\nno equals sign\n";

#[test]
fn full_configuration_is_read() {
    let c = parse_config(GOOD).unwrap();
    assert_eq!(c.api_url, "https://example.com/api?a=b");
    assert_eq!(c.api_key, "SECRET-REDACTED");
    assert_eq!(c.watch_time, 10);
    assert!(!c.media_enable);
    assert!(c.log_enable);
    assert_eq!(c.sleep_secs(), 10);
}

#[test]
fn later_line_overrides_earlier() {
    let text = format!("{}WATCH_TIME=-3\n", GOOD);
    let c = parse_config(&text).unwrap();
    assert_eq!(c.watch_time, -3);
    assert_eq!(c.sleep_secs(), 5);
}

#[test]
fn missing_settings_in_order() {
    assert_eq!(parse_config("").unwrap_err(), ConfigError::Missing(ConfigKey::ApiUrl));
    assert_eq!(parse_config("API_URL=u").unwrap_err(), ConfigError::Missing(ConfigKey::ApiKey));
    assert_eq!(parse_config("API_URL=u\nAPI_KEY=k").unwrap_err(), ConfigError::Missing(ConfigKey::WatchTime));
    assert_eq!(
        parse_config("API_URL=u\nAPI_KEY=k\nWATCH_TIME=1").unwrap_err(),
        ConfigError::Missing(ConfigKey::MediaEnable)
    );
    assert_eq!(
        parse_config("API_URL=u\nAPI_KEY=k\nWATCH_TIME=1\nMEDIA_ENABLE=true").unwrap_err(),
        ConfigError::Missing(ConfigKey::LogEnable)
    );
    assert_eq!(
        parse_config("#API_URL=u\nAPI_KEY=k\nWATCH_TIME=1\nMEDIA_ENABLE=true\nLOG_ENABLE=true").unwrap_err(),
        ConfigError::Missing(ConfigKey::ApiUrl)
    );
}

#[test]
fn bad_values_are_refused() {
    assert_eq!(parse_config("WATCH_TIME=5s\nAPI_URL=u").unwrap_err(), ConfigError::InvalidNumber(ConfigKey::WatchTime));
    assert_eq!(parse_config("MEDIA_ENABLE=yes").unwrap_err(), ConfigError::InvalidBool(ConfigKey::MediaEnable));
    assert_eq!(parse_config("LOG_ENABLE=True").unwrap_err(), ConfigError::InvalidBool(ConfigKey::LogEnable));
    assert_eq!(parse_config("WATCH_TIME = 5").unwrap_err(), ConfigError::Missing(ConfigKey::ApiUrl));
}

#[test]
fn integers_as_std_reads_them() {
    for s in ["0", "42", "+7", "-7", "007", "9223372036854775807", "-9223372036854775808", "9223372036854775808", "-9223372036854775809", "", "-", "+", "1 ", "1_0", "99999999999999999999999"] {
        assert_eq!(parse_i64(&chars(s)), s.parse::<i64>().ok(), "input {:?}", s);
    }
}

#[test]
fn booleans_as_std_reads_them() {
    for s in ["true", "false", "TRUE", "", "1", "true "] {
        assert_eq!(parse_bool(&chars(s)), s.parse::<bool>().ok(), "input {:?}", s);
    }
}

#[test]
fn default_settings() {
    let c = Config::default();
    assert_eq!(c.api_url, "");
    assert_eq!(c.api_key, "");
    assert_eq!(c.watch_time, 5);
    assert!(c.media_enable);
    assert!(c.log_enable);
}
