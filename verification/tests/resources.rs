use px_config::configuration::DatabaseConfig;
use px_config::configuration::OpendalConfig;
use px_config::database::ACQUIRE_TIMEOUT_SECS;
use px_config::database::SslMode;
use px_config::database::StatementLogLevel;
use px_config::health::storage_health;
use px_config::profile::Profile;
use px_config::profile::profile_secret_key;
use px_config::profile::resolve_profile;
use px_config::secret::Secret;
use px_config::text::format_u16;
use px_config::text::parse_port;

fn sample_db_config(require_ssl: bool) -> DatabaseConfig {
    DatabaseConfig {
        username: "app".to_string(),
        password: Secret::new("hunter2".to_string()),
        port: 5432,
        host: "db.internal".to_string(),
        database_name: "app_db".to_string(),
        require_ssl,
    }
}

#[test]
fn profile_dev_resolves_to_development() {
    assert_eq!(resolve_profile("dev").unwrap(), Profile::Development);
}

#[test]
fn profile_prod_resolves_to_production() {
    assert_eq!(resolve_profile("prod").unwrap(), Profile::Production);
}

#[test]
fn profile_other_values_are_fatal() {
    assert!(resolve_profile("").is_err());
    assert!(resolve_profile("Dev").is_err());
    assert!(resolve_profile("production").is_err());
    assert!(resolve_profile("prod ").is_err());
}

#[test]
fn profile_key_is_fixed() {
    assert_eq!(profile_secret_key(), "PX_PROFILE");
}

#[test]
fn without_db_maps_require_ssl_to_tls_mode() {
    let strict = sample_db_config(true).without_db();
    assert_eq!(strict.ssl_mode, SslMode::Require);
    let lax = sample_db_config(false).without_db();
    assert_eq!(lax.ssl_mode, SslMode::Prefer);
}

#[test]
fn without_db_selects_no_database() {
    let opts = sample_db_config(true).without_db();
    assert_eq!(opts.host, "db.internal");
    assert_eq!(opts.username, "app");
    assert_eq!(opts.password.expose_secret(), "hunter2");
    assert_eq!(opts.database, None);
    assert_eq!(opts.statement_log, None);
}

#[test]
fn with_db_is_without_db_plus_database_name() {
    let cfg = sample_db_config(true);
    let with = cfg.with_db();
    let without = cfg.without_db();
    assert_eq!(with.host, without.host);
    assert_eq!(with.username, without.username);
    assert_eq!(with.password.expose_secret(), without.password.expose_secret());
    assert_eq!(with.ssl_mode, without.ssl_mode);
    assert_eq!(with.database.as_deref(), Some("app_db"));
    assert_eq!(with.statement_log, Some(StatementLogLevel::Trace));
}

#[test]
fn pool_construction_is_pure_and_bounded() {
    // Host that resolves nowhere: construction must still succeed instantly.
    let mut cfg = sample_db_config(false);
    cfg.host = "unreachable.invalid".to_string();
    let pool = cfg.get_database_pool();
    assert_eq!(pool.acquire_timeout.secs, ACQUIRE_TIMEOUT_SECS);
    assert_eq!(pool.acquire_timeout.secs, 2);
    assert_eq!(pool.acquire_timeout.nanos, 0);
    assert_eq!(pool.options.database.as_deref(), Some("app_db"));
}

fn sample_storage_config() -> OpendalConfig {
    OpendalConfig {
        endpoint: "https://s3.example.com".to_string(),
        access_key: "AKIA".to_string(),
        secret_key: "s3-secret-key".to_string(),
        bucket: "assets".to_string(),
        region: "eu-central-1".to_string(),
    }
}

#[test]
fn operator_construction_succeeds_without_connectivity() {
    // The endpoint resolves nowhere; construction must still succeed, since
    // it never verifies connectivity.
    let mut cfg = sample_storage_config();
    cfg.endpoint = "https://storage.unreachable.invalid".to_string();
    assert!(cfg.get_opendal_operator().is_ok());
}

#[test]
fn operator_construction_refuses_empty_bucket() {
    let mut cfg = sample_storage_config();
    cfg.bucket = String::new();
    let err = match cfg.get_opendal_operator() {
        Ok(_) => panic!("an empty bucket must be refused"),
        Err(e) => e,
    };
    assert!(!err.message.is_empty());
}

#[test]
fn storage_health_maps_outcomes_to_status_codes() {
    assert_eq!(storage_health(true), 200);
    assert_eq!(storage_health(false), 500);
}

#[test]
fn secret_exposes_only_on_demand() {
    let s = Secret::new("swordfish".to_string());
    assert_eq!(s.expose_secret(), "swordfish");
    assert_eq!(s.redacted(), "[REDACTED]");
    let t = Secret::new("another".to_string());
    assert_eq!(t.redacted(), "[REDACTED]");
}

#[test]
fn port_parsing_accepts_exactly_valid_numerals() {
    assert_eq!(parse_port("0"), Some(0));
    assert_eq!(parse_port("80"), Some(80));
    assert_eq!(parse_port("8000"), Some(8000));
    assert_eq!(parse_port("65535"), Some(65535));
    assert_eq!(parse_port("00080"), Some(80));
    assert_eq!(parse_port("65536"), None);
    assert_eq!(parse_port("99999999999999999999"), None);
    assert_eq!(parse_port(""), None);
    assert_eq!(parse_port("-1"), None);
    assert_eq!(parse_port("80a"), None);
    assert_eq!(parse_port(" 80"), None);
}

#[test]
fn port_parsing_matches_std_on_signs() {
    // std's unsigned grammar: one optional leading plus, then digits.
    assert_eq!(parse_port("+80"), "+80".parse::<u16>().ok());
    assert_eq!(parse_port("+80"), Some(80));
    assert_eq!(parse_port("+65535"), Some(65535));
    assert_eq!(parse_port("+0"), Some(0));
    assert_eq!(parse_port("+"), "+".parse::<u16>().ok());
    assert_eq!(parse_port("+"), None);
    assert_eq!(parse_port("++80"), None);
    assert_eq!(parse_port("+65536"), None);
    assert_eq!(parse_port("8+0"), None);
}

#[test]
fn port_round_trips_through_its_numeral() {
    for n in [0u16, 1, 9, 10, 80, 443, 8000, 54321, 65535] {
        let text = format_u16(n);
        assert_eq!(parse_port(&text), Some(n));
    }
    assert_eq!(format_u16(8000), "8000");
    assert_eq!(format_u16(0), "0");
}
