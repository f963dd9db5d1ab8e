use pgcat_config::report::Settings;
use pgcat_config::schema::Config;
use pgcat_config::schema::Shard;

#[test]
fn show_describes_the_default() {
    let lines = Config::default().show();
    assert_eq!(
        lines,
        vec![
            "Pool size: 15",
            "Pool mode: transaction",
            "Ban time: 60s",
            "Healthcheck timeout: 1000ms",
            "Connection timeout: 5000ms",
            "Sharding function: pg_bigint_hash",
            "Primary reads: true",
            "Query router: false",
            "Number of shards: 1",
            "TLS support is disabled",
        ]
    );
}

#[test]
fn show_describes_changed_settings() {
    let mut config = Config::default();
    config.general.pool_size = 4294967295;
    config.general.pool_mode = String::from("session");
    config.general.ban_time = -5;
    config.general.healthcheck_timeout = 0;
    config.general.connect_timeout = 18446744073709551615;
    config.query_router.sharding_function = String::from("sha1");
    config.query_router.primary_reads_enabled = false;
    config.query_router.query_parser_enabled = true;
    config.shards.insert(String::from("0"), Shard::default());
    config.shards.insert(String::from("2"), Shard::default());
    let lines = config.show();
    assert_eq!(
        lines,
        vec![
            "Pool size: 4294967295",
            "Pool mode: session",
            "Ban time: -5s",
            "Healthcheck timeout: 0ms",
            "Connection timeout: 18446744073709551615ms",
            "Sharding function: sha1",
            "Primary reads: false",
            "Query router: true",
            "Number of shards: 3",
            "TLS support is disabled",
        ]
    );
}

#[test]
fn show_describes_tls_with_both_files() {
    let mut config = Config::default();
    config.general.tls_certificate = Some(String::from("server.cert"));
    config.general.tls_private_key = Some(String::from("server.key"));
    let lines = config.show();
    assert_eq!(lines.len(), 12);
    assert_eq!(lines[9], "TLS certificate: server.cert");
    assert_eq!(lines[10], "TLS private key: server.key");
    assert_eq!(lines[11], "TLS support is enabled");
}

#[test]
fn show_describes_a_certificate_without_key() {
    let mut config = Config::default();
    config.general.tls_certificate = Some(String::from("server.cert"));
    let lines = config.show();
    assert_eq!(lines.len(), 10);
    assert_eq!(lines[9], "TLS certificate: server.cert");
}

#[test]
fn show_passes_over_a_key_without_certificate() {
    let mut config = Config::default();
    config.general.tls_private_key = Some(String::from("server.key"));
    let lines = config.show();
    assert_eq!(lines.len(), 10);
    assert_eq!(lines[9], "TLS support is disabled");
}

#[test]
fn settings_of_the_default() {
    let config = Config::default();
    let table = Settings::from(&config);
    assert_eq!(table.len(), 11);
    assert_eq!(table.get("host").unwrap(), "localhost");
    assert_eq!(table.get("port").unwrap(), "5432");
    assert_eq!(table.get("pool_size").unwrap(), "15");
    assert_eq!(table.get("pool_mode").unwrap(), "transaction");
    assert_eq!(table.get("connect_timeout").unwrap(), "5000");
    assert_eq!(table.get("healthcheck_timeout").unwrap(), "1000");
    assert_eq!(table.get("ban_time").unwrap(), "60");
    assert_eq!(table.get("default_role").unwrap(), "any");
    assert_eq!(table.get("query_parser_enabled").unwrap(), "false");
    assert_eq!(table.get("primary_reads_enabled").unwrap(), "true");
    assert_eq!(table.get("sharding_function").unwrap(), "pg_bigint_hash");
    assert!(table.get("path").is_none());
    assert!(table.get("tls_certificate").is_none());
}

#[test]
fn settings_write_negative_numbers() {
    let mut config = Config::default();
    config.general.port = -32768;
    config.general.ban_time = -9223372036854775808;
    config.query_router.query_parser_enabled = true;
    config.query_router.primary_reads_enabled = false;
    let table = Settings::from(&config);
    assert_eq!(table.get("port").unwrap(), "-32768");
    assert_eq!(table.get("ban_time").unwrap(), "-9223372036854775808");
    assert_eq!(table.get("query_parser_enabled").unwrap(), "true");
    assert_eq!(table.get("primary_reads_enabled").unwrap(), "false");
}
