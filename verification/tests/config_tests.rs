use oauth_relay::config::{
    find_available_port, get_available_server_addr, AppConfig, ConfigError, EnvSettings,
};
use oauth_relay::decimal::{parse_decimal, push_decimal, NumberError};

fn no_settings() -> EnvSettings {
    EnvSettings {
        host: None,
        port: None,
        log_level: None,
        auth_url: None,
        client_id: None,
        state_expire_minutes: None,
    }
}

fn port_is_free(host: &str, port: u16) -> bool {
    host == "127.0.0.1" && port % 2 == 1
}

#[test]
fn test_default_config() {
    let config = AppConfig::default();
    assert_eq!(config.server.host, "0.0.0.0");
    assert_eq!(config.server.port, 3000);
    assert_eq!(config.server.log_level, "info");
    assert_eq!(
        config.oauth.auth_url,
        "https://auth.augmentcode.com/authorize"
    );
    assert_eq!(config.oauth.client_id, "v");
    assert_eq!(config.oauth.state_expire_minutes, 30);
}

#[test]
fn test_server_addr() {
    let config = AppConfig::default();
    assert_eq!(config.server_addr(), "0.0.0.0:3000");
}

#[test]
fn test_find_available_port() {
    let result = find_available_port("127.0.0.1", 65000, 10, port_is_free);
    assert!(result.is_ok());
    let port = result.unwrap();
    assert!(port >= 65000 && port < 65010);
}

#[test]
fn server_addr_follows_host_and_port() {
    let mut config = AppConfig::default();
    config.server.host = "localhost".to_string();
    config.server.port = 0;
    assert_eq!(config.server_addr(), "localhost:0");
    config.server.port = 65535;
    assert_eq!(config.server_addr(), "localhost:65535");
    config.server.port = 10;
    assert_eq!(config.server_addr(), "localhost:10");
}

#[test]
fn load_without_settings_gives_defaults() {
    let config = AppConfig::load(&no_settings(), &no_settings()).unwrap();
    assert_eq!(config.server.host, "0.0.0.0");
    assert_eq!(config.server.port, 3000);
    assert_eq!(config.server.log_level, "info");
    assert_eq!(config.oauth.auth_url, "https://auth.augmentcode.com/authorize");
    assert_eq!(config.oauth.client_id, "v");
    assert_eq!(config.oauth.state_expire_minutes, 30);
}

#[test]
fn load_applies_every_setting() {
    let env = EnvSettings {
        host: Some("127.0.0.1".to_string()),
        port: Some("8080".to_string()),
        log_level: Some("debug".to_string()),
        auth_url: Some("https://login.example.com/authorize".to_string()),
        client_id: Some("relay".to_string()),
        state_expire_minutes: Some("5".to_string()),
    };
    let config = AppConfig::load(&env, &env).unwrap();
    assert_eq!(config.server.host, "127.0.0.1");
    assert_eq!(config.server.port, 8080);
    assert_eq!(config.server.log_level, "debug");
    assert_eq!(config.oauth.auth_url, "https://login.example.com/authorize");
    assert_eq!(config.oauth.client_id, "relay");
    assert_eq!(config.oauth.state_expire_minutes, 5);
}

#[test]
fn load_lets_later_settings_win() {
    let mut before = no_settings();
    before.port = Some("4000".to_string());
    before.host = Some("10.0.0.1".to_string());
    let mut after = no_settings();
    after.port = Some("5000".to_string());
    let config = AppConfig::load(&before, &after).unwrap();
    assert_eq!(config.server.port, 5000);
    assert_eq!(config.server.host, "10.0.0.1");
}

#[test]
fn load_rejects_bad_port() {
    let mut env = no_settings();
    env.port = Some("80a".to_string());
    let error = AppConfig::load(&env, &no_settings()).unwrap_err();
    assert_eq!(
        error,
        ConfigError::InvalidPort { value: "80a".to_string(), reason: NumberError::InvalidDigit }
    );
    assert_eq!(error.message(), "无效的端口号 '80a': invalid digit found in string");

    env.port = Some("65536".to_string());
    let error = AppConfig::load(&no_settings(), &env).unwrap_err();
    assert_eq!(
        error,
        ConfigError::InvalidPort { value: "65536".to_string(), reason: NumberError::TooLarge }
    );
    assert_eq!(
        error.message(),
        "无效的端口号 '65536': number too large to fit in target type"
    );

    env.port = Some(String::new());
    let error = AppConfig::load(&env, &no_settings()).unwrap_err();
    assert_eq!(
        error,
        ConfigError::InvalidPort { value: String::new(), reason: NumberError::Empty }
    );
    assert_eq!(error.message(), "无效的端口号 '': cannot parse integer from empty string");
}

#[test]
fn load_rejects_bad_expire_minutes() {
    let mut env = no_settings();
    env.state_expire_minutes = Some("-5".to_string());
    let error = AppConfig::load(&env, &no_settings()).unwrap_err();
    assert_eq!(
        error,
        ConfigError::InvalidExpireMinutes {
            value: "-5".to_string(),
            reason: NumberError::InvalidDigit
        }
    );
    assert_eq!(error.message(), "无效的过期时间 '-5': invalid digit found in string");

    env.state_expire_minutes = Some("4294967296".to_string());
    let error = AppConfig::load(&env, &no_settings()).unwrap_err();
    assert_eq!(
        error,
        ConfigError::InvalidExpireMinutes {
            value: "4294967296".to_string(),
            reason: NumberError::TooLarge
        }
    );
}

#[test]
fn load_reports_port_before_expire_minutes() {
    let mut env = no_settings();
    env.port = Some("x".to_string());
    env.state_expire_minutes = Some("y".to_string());
    let error = AppConfig::load(&env, &no_settings()).unwrap_err();
    assert!(matches!(error, ConfigError::InvalidPort { .. }));
}

#[test]
fn load_from_env_keeps_what_is_not_set() {
    let mut config = AppConfig::default();
    config.server.port = 1234;
    config.oauth.client_id = "mine".to_string();
    let mut env = no_settings();
    env.log_level = Some("trace".to_string());
    let config = config.load_from_env(&env).unwrap();
    assert_eq!(config.server.port, 1234);
    assert_eq!(config.oauth.client_id, "mine");
    assert_eq!(config.server.log_level, "trace");
}

#[test]
fn parse_decimal_reads_numerals() {
    assert_eq!(parse_decimal("0", 65535), Ok(0));
    assert_eq!(parse_decimal("3000", 65535), Ok(3000));
    assert_eq!(parse_decimal("+3000", 65535), Ok(3000));
    assert_eq!(parse_decimal("0003000", 65535), Ok(3000));
    assert_eq!(parse_decimal("65535", 65535), Ok(65535));
    assert_eq!(parse_decimal("4294967295", u32::MAX), Ok(4294967295));
}

#[test]
fn parse_decimal_refuses_what_is_no_numeral() {
    assert_eq!(parse_decimal("", 65535), Err(NumberError::Empty));
    assert_eq!(parse_decimal("+", 65535), Err(NumberError::InvalidDigit));
    assert_eq!(parse_decimal("-", 65535), Err(NumberError::InvalidDigit));
    assert_eq!(parse_decimal("-1", 65535), Err(NumberError::InvalidDigit));
    assert_eq!(parse_decimal("++1", 65535), Err(NumberError::InvalidDigit));
    assert_eq!(parse_decimal("1+", 65535), Err(NumberError::InvalidDigit));
    assert_eq!(parse_decimal(" 1", 65535), Err(NumberError::InvalidDigit));
    assert_eq!(parse_decimal("1 ", 65535), Err(NumberError::InvalidDigit));
    assert_eq!(parse_decimal("12x", 65535), Err(NumberError::InvalidDigit));
    assert_eq!(parse_decimal("١٢", 65535), Err(NumberError::InvalidDigit));
    assert_eq!(parse_decimal("65536", 65535), Err(NumberError::TooLarge));
    assert_eq!(parse_decimal("99999x", 65535), Err(NumberError::TooLarge));
    assert_eq!(parse_decimal("9x9999", 65535), Err(NumberError::InvalidDigit));
    assert_eq!(parse_decimal("4294967296", u32::MAX), Err(NumberError::TooLarge));
}

#[test]
fn push_decimal_writes_numerals() {
    let mut text = String::from("n=");
    push_decimal(&mut text, 0);
    assert_eq!(text, "n=0");
    let mut text = String::new();
    push_decimal(&mut text, 1234567890);
    assert_eq!(text, "1234567890");
    let mut text = String::new();
    push_decimal(&mut text, u64::MAX);
    assert_eq!(text, "18446744073709551615");
}

#[test]
fn find_available_port_takes_first_free_port() {
    let found = find_available_port("h", 65000, 10, |_host: &str, port: u16| port >= 65003);
    assert_eq!(found, Ok(65003));
    let found = find_available_port("h", 65000, 10, |host: &str, port: u16| {
        host == "h" && port == 65009
    });
    assert_eq!(found, Ok(65009));
}

#[test]
fn find_available_port_reports_exhaustion() {
    let found = find_available_port("h", 65000, 10, |_host: &str, port: u16| port >= 65010);
    assert_eq!(found, Err(ConfigError::NoAvailablePort { first: 65000, last: 65009 }));
    assert_eq!(found.unwrap_err().message(), "在端口范围 65000-65009 内未找到可用端口");
    let found = find_available_port("h", 8000, 0, |_host: &str, _port: u16| true);
    assert_eq!(found, Err(ConfigError::NoAvailablePort { first: 8000, last: 7999 }));
}

#[test]
fn find_available_port_stops_at_end_of_range() {
    let found = find_available_port("h", 65530, 100, |_host: &str, port: u16| port == 65535);
    assert_eq!(found, Ok(65535));
    let found = find_available_port("h", 65530, 100, |_host: &str, _port: u16| false);
    assert_eq!(found, Err(ConfigError::NoAvailablePort { first: 65530, last: 65629 }));
}

#[test]
fn server_addr_keeps_free_port() {
    let mut config = AppConfig::default();
    let addr = get_available_server_addr(&mut config, |_host: &str, _port: u16| true);
    assert_eq!(addr, Ok("0.0.0.0:3000".to_string()));
    assert_eq!(config.server.port, 3000);
}

#[test]
fn server_addr_moves_to_next_free_port() {
    let mut config = AppConfig::default();
    let addr = get_available_server_addr(&mut config, |host: &str, port: u16| {
        host == "0.0.0.0" && port >= 3002
    });
    assert_eq!(addr, Ok("0.0.0.0:3002".to_string()));
    assert_eq!(config.server.port, 3002);
    assert_eq!(config.server_addr(), "0.0.0.0:3002");
}

#[test]
fn server_addr_gives_up_after_hundred_ports() {
    let mut config = AppConfig::default();
    let addr = get_available_server_addr(&mut config, |_host: &str, port: u16| port > 3100);
    assert_eq!(addr, Err(ConfigError::ServerPortUnavailable { first: 3001, last: 3100 }));
    assert_eq!(config.server.port, 3000);
    assert_eq!(
        addr.unwrap_err().message(),
        "无法找到可用端口: 在端口范围 3001-3100 内未找到可用端口"
    );
    let addr = get_available_server_addr(&mut config, |_host: &str, port: u16| port == 3100);
    assert_eq!(addr, Ok("0.0.0.0:3100".to_string()));
}

#[test]
fn server_addr_at_top_of_port_range() {
    let mut config = AppConfig::default();
    config.server.port = 65535;
    let addr = get_available_server_addr(&mut config, |_host: &str, _port: u16| false);
    assert_eq!(addr, Err(ConfigError::ServerPortUnavailable { first: 65536, last: 65635 }));
    let addr = get_available_server_addr(&mut config, |_host: &str, _port: u16| true);
    assert_eq!(addr, Ok("0.0.0.0:65535".to_string()));
}
