use transfer_analytics::{ClickhouseClientConfig, ConfigError};

fn var(key: &str, value: &str) -> (String, String) {
    (key.to_string(), value.to_string())
}

#[test]
fn config_from_complete_environment() {
    let vars = vec![
        var("HOME", "/root"),
        var("CLICKHOUSE_DB", "analytics"),
        var("CLICKHOUSE_URL", "http://localhost:8123"),
        var("CLICKHOUSE_PASSWORD", "SECRET-REDACTED"),
        var("CLICKHOUSE_USER", "default"),
    ];
    let config = ClickhouseClientConfig::from_env(&vars).expect("complete environment");
    assert_eq!(config.host, "http://localhost:8123");
    assert_eq!(config.user, "default");
    assert_eq!(config.password, "SECRET-REDACTED");
    assert_eq!(config.database, "analytics");
}

#[test]
fn config_reports_first_missing_variable() {
    let vars = vec![var("CLICKHOUSE_URL", "http://localhost:8123"), var("CLICKHOUSE_DB", "x")];
    let error = ClickhouseClientConfig::from_env(&vars).unwrap_err();
    assert_eq!(
        error,
        ConfigError {
            key: "CLICKHOUSE_USER".to_string()
        }
    );
    assert_eq!(
        error.message(),
        "Env variable with key `CLICKHOUSE_USER` not found. "
    );

    let error = ClickhouseClientConfig::from_env(&[]).unwrap_err();
    assert_eq!(error.key, "CLICKHOUSE_URL");
}

#[test]
fn config_takes_first_entry_of_a_name() {
    let vars = vec![
        var("CLICKHOUSE_URL", "first"),
        var("CLICKHOUSE_URL", "second"),
        var("CLICKHOUSE_USER", "u"),
        var("CLICKHOUSE_PASSWORD", "p"),
        var("CLICKHOUSE_DB", "d"),
    ];
    let config = ClickhouseClientConfig::from_env(&vars).expect("complete environment");
    assert_eq!(config.host, "first");
}
