use px_config::configuration::ApplicationConfig;
use px_config::configuration::DatabaseConfig;
use px_config::configuration::IpAddress;
use px_config::configuration::OpendalConfig;
use px_config::configuration::RawConfig;
use px_config::configuration::RawDatabaseSection;
use px_config::configuration::RawOpendalSection;
use px_config::configuration::RawServerSection;
use px_config::configuration::load_database_config;
use px_config::configuration::load_opendal_config;
use px_config::configuration::load_server_config;
use px_config::configuration::merge_config;
use px_config::duration::SignedDuration;
use px_config::errors::ConfigError;
use px_config::profile::Profile;
use px_config::startup::resolve_startup_config;

/// The configuration types deliberately implement no `Debug` (they carry
/// secrets), so take errors out of results by hand.
fn expect_err<T>(r: Result<T, ConfigError>) -> ConfigError {
    match r {
        Ok(_) => panic!("expected a fatal configuration error"),
        Err(e) => e,
    }
}

fn raw_server(port: &str, timeout_secs: i64) -> RawServerSection {
    RawServerSection {
        port: Some(port.to_string()),
        ip: Some(IpAddress::V4 { a: 127, b: 0, c: 0, d: 1 }),
        graceful_shutdown_timeout: Some(SignedDuration { secs: timeout_secs, nanos: 0 }),
    }
}

fn raw_database(port: &str) -> RawDatabaseSection {
    RawDatabaseSection {
        username: Some("app".to_string()),
        password: Some("hunter2".to_string()),
        port: Some(port.to_string()),
        host: Some("db.internal".to_string()),
        database_name: Some("app_db".to_string()),
        require_ssl: Some(true),
    }
}

fn raw_opendal() -> RawOpendalSection {
    RawOpendalSection {
        endpoint: Some("https://s3.example.com".to_string()),
        access_key: Some("AKIA".to_string()),
        secret_key: Some("s3-secret-key".to_string()),
        bucket: Some("assets".to_string()),
        region: Some("eu-central-1".to_string()),
    }
}

fn empty_layer() -> RawConfig {
    RawConfig { server: None, databaseconfig: None, opendalconfig: None }
}

fn full_base() -> RawConfig {
    RawConfig {
        server: Some(raw_server("8000", 30)),
        databaseconfig: Some(raw_database("5432")),
        opendalconfig: Some(raw_opendal()),
    }
}

#[test]
fn server_section_loads_valid_values() {
    let cfg = load_server_config(Some(raw_server("8000", 30))).unwrap();
    assert_eq!(cfg.port, 8000);
    assert_eq!(cfg.ip, IpAddress::V4 { a: 127, b: 0, c: 0, d: 1 });
    assert_eq!(cfg.graceful_shutdown_timeout.secs, 30);
    assert_eq!(cfg.graceful_shutdown_timeout.nanos, 0);
}

#[test]
fn server_section_missing_is_fatal() {
    assert_eq!(load_server_config(None).unwrap_err(), ConfigError::MissingServerSection);
}

#[test]
fn server_field_missing_is_fatal() {
    let mut raw = raw_server("8000", 30);
    raw.ip = None;
    assert_eq!(load_server_config(Some(raw)).unwrap_err(), ConfigError::MissingServerField);
}

#[test]
fn zero_shutdown_timeout_is_accepted() {
    let cfg = load_server_config(Some(raw_server("8000", 0))).unwrap();
    assert_eq!(cfg.graceful_shutdown_timeout.secs, 0);
}

#[test]
fn negative_shutdown_timeout_is_rejected() {
    let err = load_server_config(Some(raw_server("8000", -1))).unwrap_err();
    assert_eq!(err, ConfigError::NegativeShutdownTimeout);
}

#[test]
fn negative_subsecond_timeout_is_rejected() {
    let mut raw = raw_server("8000", 0);
    raw.graceful_shutdown_timeout = Some(SignedDuration { secs: 0, nanos: -1 });
    assert_eq!(load_server_config(Some(raw)).unwrap_err(), ConfigError::NegativeShutdownTimeout);
}

#[test]
fn non_numeric_port_is_rejected() {
    let err = load_server_config(Some(raw_server("eighty", 30))).unwrap_err();
    assert_eq!(err, ConfigError::InvalidPort);
}

#[test]
fn out_of_range_port_is_rejected() {
    let err = load_server_config(Some(raw_server("65536", 30))).unwrap_err();
    assert_eq!(err, ConfigError::InvalidPort);
}

#[test]
fn largest_port_round_trips() {
    let cfg = load_server_config(Some(raw_server("65535", 30))).unwrap();
    assert_eq!(cfg.port, 65535);
}

#[test]
fn plus_prefixed_port_loads_as_its_value() {
    let cfg = load_server_config(Some(raw_server("+8000", 30))).unwrap();
    assert_eq!(cfg.port, 8000);
}

#[test]
fn absent_database_section_yields_default() {
    let cfg = load_database_config(None).unwrap();
    let dflt = DatabaseConfig::default();
    assert_eq!(cfg.username, dflt.username);
    assert_eq!(cfg.username, "");
    assert_eq!(cfg.password.expose_secret(), "");
    assert_eq!(cfg.port, 0);
    assert_eq!(cfg.host, "");
    assert_eq!(cfg.database_name, "");
    assert!(!cfg.require_ssl);
}

#[test]
fn present_database_section_loads_all_fields() {
    let cfg = load_database_config(Some(raw_database("5432"))).unwrap();
    assert_eq!(cfg.username, "app");
    assert_eq!(cfg.password.expose_secret(), "hunter2");
    assert_eq!(cfg.port, 5432);
    assert_eq!(cfg.host, "db.internal");
    assert_eq!(cfg.database_name, "app_db");
    assert!(cfg.require_ssl);
}

#[test]
fn database_field_missing_is_fatal() {
    let mut raw = raw_database("5432");
    raw.host = None;
    assert_eq!(expect_err(load_database_config(Some(raw))), ConfigError::MissingDatabaseField);
}

#[test]
fn database_port_must_be_numeric() {
    assert_eq!(expect_err(load_database_config(Some(raw_database("54x2")))), ConfigError::InvalidPort);
}

#[test]
fn absent_opendal_section_yields_default() {
    let cfg = load_opendal_config(None).unwrap();
    assert_eq!(cfg.endpoint, "");
    assert_eq!(cfg.access_key, "");
    assert_eq!(cfg.secret_key, "");
    assert_eq!(cfg.bucket, "");
    assert_eq!(cfg.region, "");
}

#[test]
fn opendal_field_missing_is_fatal() {
    let mut raw = raw_opendal();
    raw.bucket = None;
    assert_eq!(expect_err(load_opendal_config(Some(raw))), ConfigError::MissingStorageField);
}

#[test]
fn override_layer_wins_key_by_key() {
    let base = full_base();
    let over = RawConfig {
        server: Some(RawServerSection {
            port: Some("9000".to_string()),
            ip: None,
            graceful_shutdown_timeout: None,
        }),
        databaseconfig: None,
        opendalconfig: None,
    };
    let merged = merge_config(base, over);
    let server = merged.server.unwrap();
    assert_eq!(server.port.as_deref(), Some("9000"));
    assert_eq!(server.ip, Some(IpAddress::V4 { a: 127, b: 0, c: 0, d: 1 }));
    assert_eq!(
        server.graceful_shutdown_timeout,
        Some(SignedDuration { secs: 30, nanos: 0 })
    );
    assert!(merged.databaseconfig.is_some());
    assert!(merged.opendalconfig.is_some());
}

#[test]
fn ipv6_addresses_are_carried_through() {
    let mut raw = raw_server("8000", 30);
    raw.ip = Some(IpAddress::V6 { s0: 0, s1: 0, s2: 0, s3: 0, s4: 0, s5: 0, s6: 0, s7: 1 });
    let cfg = load_server_config(Some(raw)).unwrap();
    assert_eq!(cfg.ip, IpAddress::V6 { s0: 0, s1: 0, s2: 0, s3: 0, s4: 0, s5: 0, s6: 0, s7: 1 });
    let bind = cfg.listener();
    assert_eq!(bind.port, 8000);
    assert_eq!(bind.ip, cfg.ip);
}

#[test]
fn database_override_wins_per_field() {
    let base = full_base();
    let over = RawConfig {
        server: None,
        databaseconfig: Some(RawDatabaseSection {
            username: None,
            password: Some("rotated".to_string()),
            port: None,
            host: None,
            database_name: None,
            require_ssl: Some(false),
        }),
        opendalconfig: None,
    };
    let merged = merge_config(base, over);
    let db = merged.databaseconfig.unwrap();
    assert_eq!(db.username.as_deref(), Some("app"));
    assert_eq!(db.password.as_deref(), Some("rotated"));
    assert_eq!(db.require_ssl, Some(false));
    assert_eq!(db.host.as_deref(), Some("db.internal"));
}

#[test]
fn override_can_supply_a_whole_missing_section() {
    let base = empty_layer();
    let over = RawConfig {
        server: Some(raw_server("8080", 5)),
        databaseconfig: None,
        opendalconfig: None,
    };
    let merged = merge_config(base, over);
    let cfg = load_server_config(merged.server).unwrap();
    assert_eq!(cfg.port, 8080);
    assert_eq!(cfg.graceful_shutdown_timeout.secs, 5);
}

#[test]
fn startup_fails_on_port_error_in_selected_overlay_only() {
    // The broken port sits in the dev overlay; under prod it is never seen.
    let broken_dev = RawConfig {
        server: Some(RawServerSection {
            port: Some("not-a-port".to_string()),
            ip: None,
            graceful_shutdown_timeout: None,
        }),
        databaseconfig: None,
        opendalconfig: None,
    };
    let err = expect_err(resolve_startup_config(
        "dev",
        full_base(),
        RawConfig {
            server: Some(RawServerSection {
                port: Some("not-a-port".to_string()),
                ip: None,
                graceful_shutdown_timeout: None,
            }),
            databaseconfig: None,
            opendalconfig: None,
        },
        empty_layer(),
    ));
    assert_eq!(err, ConfigError::InvalidPort);
    let (_, cfg) =
        resolve_startup_config("prod", full_base(), broken_dev, empty_layer()).unwrap();
    assert_eq!(cfg.server.port, 8000);
}

#[test]
fn startup_resolves_profile_then_loads() {
    let (profile, cfg): (Profile, ApplicationConfig) =
        resolve_startup_config("prod", full_base(), empty_layer(), empty_layer()).unwrap();
    assert_eq!(profile, Profile::Production);
    assert_eq!(cfg.server.port, 8000);
    assert_eq!(cfg.database.database_name, "app_db");
    assert_eq!(cfg.opendal.bucket, "assets");
}

#[test]
fn startup_applies_profile_overrides() {
    let dev = RawConfig {
        server: Some(RawServerSection {
            port: Some("3000".to_string()),
            ip: None,
            graceful_shutdown_timeout: None,
        }),
        databaseconfig: None,
        opendalconfig: None,
    };
    let (_, cfg) =
        resolve_startup_config("dev", full_base(), dev, empty_layer()).unwrap();
    assert_eq!(cfg.server.port, 3000);

    let prod_only = RawConfig {
        server: Some(RawServerSection {
            port: Some("444".to_string()),
            ip: None,
            graceful_shutdown_timeout: None,
        }),
        databaseconfig: None,
        opendalconfig: None,
    };
    let (_, cfg2) =
        resolve_startup_config("prod", full_base(), empty_layer(), prod_only).unwrap();
    assert_eq!(cfg2.server.port, 444);
}

#[test]
fn startup_rejects_unknown_profile_before_sections() {
    // Even a fully valid source cannot rescue an unrecognized profile value.
    let err = expect_err(resolve_startup_config("staging", full_base(), empty_layer(), empty_layer()));
    assert_eq!(err, ConfigError::UnknownProfile);
    let err = expect_err(resolve_startup_config("", full_base(), empty_layer(), empty_layer()));
    assert_eq!(err, ConfigError::UnknownProfile);
}

#[test]
fn error_descriptions_are_stable() {
    assert_eq!(
        ConfigError::NegativeShutdownTimeout.describe(),
        "graceful shutdown timeout must be positive"
    );
    assert_eq!(ConfigError::UnknownProfile.describe(), "unrecognized application profile");
}
