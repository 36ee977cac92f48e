use todo_backend::config::{Config, ConfigError};

fn s(v: &str) -> Option<String> {
    Some(v.to_string())
}

#[test]
fn defaults_apply_when_only_database_url_is_set() {
    let c = Config::from_env(None, None, s("postgres://me@localhost/todo_next"), None, None)
        .ok()
        .unwrap();
    assert_eq!(c.host, "127.0.0.1");
    assert_eq!(c.port, 8080);
    assert_eq!(c.database_url, "postgres://me@localhost/todo_next");
    assert_eq!(c.database_max_connections, 5);
    assert_eq!(c.cors_origin, "http://localhost:3000");
}

#[test]
fn set_values_are_used() {
    let c = Config::from_env(s("0.0.0.0"), s("+9000"), s("db"), s("12"), s("https://example.com"))
        .ok()
        .unwrap();
    assert_eq!(c.host, "0.0.0.0");
    assert_eq!(c.port, 9000);
    assert_eq!(c.database_max_connections, 12);
    assert_eq!(c.cors_origin, "https://example.com");
}

#[test]
fn missing_database_url_is_reported() {
    match Config::from_env(None, None, None, None, None) {
        Err(ConfigError::Missing(name)) => assert_eq!(name, "DATABASE_URL"),
        _ => panic!("expected a missing variable"),
    }
}

#[test]
fn invalid_port_is_reported_before_missing_database_url() {
    match Config::from_env(None, s("70000"), None, None, None) {
        Err(ConfigError::Invalid { name, value }) => {
            assert_eq!(name, "PORT");
            assert_eq!(value, "70000");
        }
        _ => panic!("expected an invalid port"),
    }
}

#[test]
fn port_text_that_is_not_a_number_is_invalid() {
    for bad in ["", "80a", " 80", "-1", "+", "0x50"] {
        match Config::from_env(None, s(bad), s("db"), None, None) {
            Err(ConfigError::Invalid { name, value }) => {
                assert_eq!(name, "PORT");
                assert_eq!(value, bad);
            }
            _ => panic!("expected {bad:?} to be refused"),
        }
    }
}

#[test]
fn invalid_max_connections_is_reported() {
    match Config::from_env(None, None, s("db"), s("4294967296"), None) {
        Err(ConfigError::Invalid { name, value }) => {
            assert_eq!(name, "DATABASE_MAX_CONNECTIONS");
            assert_eq!(value, "4294967296");
        }
        _ => panic!("expected invalid max connections"),
    }
}

#[test]
fn largest_values_are_accepted() {
    let c = Config::from_env(None, s("65535"), s("db"), s("4294967295"), None).ok().unwrap();
    assert_eq!(c.port, 65535);
    assert_eq!(c.database_max_connections, 4294967295);
}

#[test]
fn bind_address_joins_host_and_port() {
    let c = Config::from_env(s("127.0.0.1"), s("0080"), s("db"), None, None).ok().unwrap();
    assert_eq!(c.bind_address(), "127.0.0.1:80");
    let d = Config::from_env(None, None, s("db"), None, None).ok().unwrap();
    assert_eq!(d.bind_address(), "127.0.0.1:8080");
}

#[test]
fn config_error_messages() {
    assert_eq!(
        ConfigError::Missing("DATABASE_URL").message(),
        "環境変数 DATABASE_URL が設定されていません"
    );
    assert_eq!(
        ConfigError::Invalid { name: "PORT", value: "x".to_string() }.message(),
        "環境変数 PORT の値が不正です: x"
    );
}

#[test]
fn printed_port_reads_back_to_the_same_port() {
    let c = Config::from_env(None, s("+0443"), s("db"), None, None).ok().unwrap();
    let addr = c.bind_address();
    assert_eq!(addr, "127.0.0.1:443");
    let printed = addr.rsplit(':').next().unwrap().to_string();
    let again = Config::from_env(None, Some(printed), s("db"), None, None).ok().unwrap();
    assert_eq!(again.port, c.port);
}
