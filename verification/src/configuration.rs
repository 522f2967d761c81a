//! Typed configuration sections and the layered configuration loader.
//!
//! The raw source is a tree keyed by section name; a profile-specific
//! override layer takes precedence over the base layer key by key. Sections
//! marked default-if-missing fall back to their documented all-default value
//! when absent; the `server` section is required. Numeric fields arrive as
//! strings and must parse; the shutdown timeout arrives signed and must not
//! be negative. Loading either yields a full `ApplicationConfig` or fails
//! fast with the first fatal error, section by section in source order.

use vstd::prelude::*;

use crate::duration::Duration;
use crate::duration::SignedDuration;
use crate::duration::spec_validate_shutdown_timeout;
use crate::duration::validate_shutdown_timeout;
use crate::errors::ConfigError;
use crate::profile::Profile;
use crate::secret::Secret;
use crate::text::parse_port;
use crate::text::spec_parse_port;

verus! {

/// An IP address held as plain numbers.
#[derive(Clone, Copy, Debug, PartialEq, Eq, Structural)]
pub enum IpAddress {
    V4 { a: u8, b: u8, c: u8, d: u8 },
    V6 { s0: u16, s1: u16, s2: u16, s3: u16, s4: u16, s5: u16, s6: u16, s7: u16 },
}

/// Where the HTTP listener binds: the configured address and port.
#[derive(Clone, Copy, Debug, PartialEq, Eq, Structural)]
pub struct SocketAddress {
    pub ip: IpAddress,
    pub port: u16,
}

/// Configuration for the HTTP server that exposes the service.
#[derive(Clone, Copy, Debug, PartialEq, Eq, Structural)]
pub struct ServerConfig {
    pub port: u16,
    pub ip: IpAddress,
    pub graceful_shutdown_timeout: Duration,
}

impl ServerConfig {
    /// Well-formed: the validated timeout has a sub-second remainder.
    pub open spec fn wf(&self) -> bool {
        self.graceful_shutdown_timeout.wf()
    }

    /// The socket address the process listener binds to.
    pub fn listener(&self) -> (r: SocketAddress)
        ensures
            r == (SocketAddress { ip: self.ip, port: self.port }),
    {
        SocketAddress { ip: self.ip, port: self.port }
    }
}

/// The database configuration section.
pub struct DatabaseConfig {
    pub username: String,
    pub password: Secret,
    pub port: u16,
    pub host: String,
    pub database_name: String,
    pub require_ssl: bool,
}

/// The mathematical value of a `DatabaseConfig`.
pub ghost struct DatabaseConfigView {
    pub username: Seq<char>,
    pub password: Seq<char>,
    pub port: u16,
    pub host: Seq<char>,
    pub database_name: Seq<char>,
    pub require_ssl: bool,
}

impl View for DatabaseConfig {
    type V = DatabaseConfigView;

    open spec fn view(&self) -> DatabaseConfigView {
        DatabaseConfigView {
            username: self.username@,
            password: self.password@,
            port: self.port,
            host: self.host@,
            database_name: self.database_name@,
            require_ssl: self.require_ssl,
        }
    }
}

/// The documented all-default database section: empty strings, port zero,
/// TLS not required.
pub open spec fn spec_default_database_config() -> DatabaseConfigView {
    DatabaseConfigView {
        username: Seq::empty(),
        password: Seq::empty(),
        port: 0,
        host: Seq::empty(),
        database_name: Seq::empty(),
        require_ssl: false,
    }
}

impl Default for DatabaseConfig {
    /// The value an absent `databaseconfig` section yields.
    fn default() -> (r: Self)
        ensures
            r@ == spec_default_database_config(),
    {
        DatabaseConfig {
            username: String::new(),
            password: Secret::new(String::new()),
            port: 0,
            host: String::new(),
            database_name: String::new(),
            require_ssl: false,
        }
    }
}

/// The object-storage configuration section.
pub struct OpendalConfig {
    pub endpoint: String,
    pub access_key: String,
    pub secret_key: String,
    pub bucket: String,
    pub region: String,
}

/// The mathematical value of an `OpendalConfig`.
pub ghost struct OpendalConfigView {
    pub endpoint: Seq<char>,
    pub access_key: Seq<char>,
    pub secret_key: Seq<char>,
    pub bucket: Seq<char>,
    pub region: Seq<char>,
}

impl View for OpendalConfig {
    type V = OpendalConfigView;

    open spec fn view(&self) -> OpendalConfigView {
        OpendalConfigView {
            endpoint: self.endpoint@,
            access_key: self.access_key@,
            secret_key: self.secret_key@,
            bucket: self.bucket@,
            region: self.region@,
        }
    }
}

/// The documented all-default storage section: every field empty.
pub open spec fn spec_default_opendal_config() -> OpendalConfigView {
    OpendalConfigView {
        endpoint: Seq::empty(),
        access_key: Seq::empty(),
        secret_key: Seq::empty(),
        bucket: Seq::empty(),
        region: Seq::empty(),
    }
}

impl Default for OpendalConfig {
    /// The value an absent `opendalconfig` section yields.
    fn default() -> (r: Self)
        ensures
            r@ == spec_default_opendal_config(),
    {
        OpendalConfig {
            endpoint: String::new(),
            access_key: String::new(),
            secret_key: String::new(),
            bucket: String::new(),
            region: String::new(),
        }
    }
}

/// The raw `server` section as the source carries it: every field optional,
/// the port still a string.
pub struct RawServerSection {
    pub port: Option<String>,
    pub ip: Option<IpAddress>,
    pub graceful_shutdown_timeout: Option<SignedDuration>,
}

/// The mathematical value of a raw `server` section.
pub ghost struct RawServerSectionView {
    pub port: Option<Seq<char>>,
    pub ip: Option<IpAddress>,
    pub graceful_shutdown_timeout: Option<SignedDuration>,
}

impl View for RawServerSection {
    type V = RawServerSectionView;

    open spec fn view(&self) -> RawServerSectionView {
        RawServerSectionView {
            port: match self.port {
                Some(ref p) => Some(p@),
                None => None,
            },
            ip: self.ip,
            graceful_shutdown_timeout: self.graceful_shutdown_timeout,
        }
    }
}

impl RawServerSectionView {
    /// Well-formed: a present raw timeout is a valid signed duration.
    pub open spec fn wf(&self) -> bool {
        match self.graceful_shutdown_timeout {
            Some(d) => d.wf(),
            None => true,
        }
    }
}

/// The raw `databaseconfig` section: every field optional, port a string.
pub struct RawDatabaseSection {
    pub username: Option<String>,
    pub password: Option<String>,
    pub port: Option<String>,
    pub host: Option<String>,
    pub database_name: Option<String>,
    pub require_ssl: Option<bool>,
}

/// The mathematical value of a raw `databaseconfig` section.
pub ghost struct RawDatabaseSectionView {
    pub username: Option<Seq<char>>,
    pub password: Option<Seq<char>>,
    pub port: Option<Seq<char>>,
    pub host: Option<Seq<char>>,
    pub database_name: Option<Seq<char>>,
    pub require_ssl: Option<bool>,
}

impl View for RawDatabaseSection {
    type V = RawDatabaseSectionView;

    open spec fn view(&self) -> RawDatabaseSectionView {
        RawDatabaseSectionView {
            username: match self.username {
                Some(ref v) => Some(v@),
                None => None,
            },
            password: match self.password {
                Some(ref v) => Some(v@),
                None => None,
            },
            port: match self.port {
                Some(ref v) => Some(v@),
                None => None,
            },
            host: match self.host {
                Some(ref v) => Some(v@),
                None => None,
            },
            database_name: match self.database_name {
                Some(ref v) => Some(v@),
                None => None,
            },
            require_ssl: self.require_ssl,
        }
    }
}

/// The raw `opendalconfig` section: every field optional.
pub struct RawOpendalSection {
    pub endpoint: Option<String>,
    pub access_key: Option<String>,
    pub secret_key: Option<String>,
    pub bucket: Option<String>,
    pub region: Option<String>,
}

/// The mathematical value of a raw `opendalconfig` section.
pub ghost struct RawOpendalSectionView {
    pub endpoint: Option<Seq<char>>,
    pub access_key: Option<Seq<char>>,
    pub secret_key: Option<Seq<char>>,
    pub bucket: Option<Seq<char>>,
    pub region: Option<Seq<char>>,
}

impl View for RawOpendalSection {
    type V = RawOpendalSectionView;

    open spec fn view(&self) -> RawOpendalSectionView {
        RawOpendalSectionView {
            endpoint: match self.endpoint {
                Some(ref v) => Some(v@),
                None => None,
            },
            access_key: match self.access_key {
                Some(ref v) => Some(v@),
                None => None,
            },
            secret_key: match self.secret_key {
                Some(ref v) => Some(v@),
                None => None,
            },
            bucket: match self.bucket {
                Some(ref v) => Some(v@),
                None => None,
            },
            region: match self.region {
                Some(ref v) => Some(v@),
                None => None,
            },
        }
    }
}

/// One raw layer of the configuration tree, keyed by section name.
pub struct RawConfig {
    pub server: Option<RawServerSection>,
    pub databaseconfig: Option<RawDatabaseSection>,
    pub opendalconfig: Option<RawOpendalSection>,
}

/// The mathematical value of one raw layer.
pub ghost struct RawConfigView {
    pub server: Option<RawServerSectionView>,
    pub databaseconfig: Option<RawDatabaseSectionView>,
    pub opendalconfig: Option<RawOpendalSectionView>,
}

impl View for RawConfig {
    type V = RawConfigView;

    open spec fn view(&self) -> RawConfigView {
        RawConfigView {
            server: match self.server {
                Some(ref s) => Some(s@),
                None => None,
            },
            databaseconfig: match self.databaseconfig {
                Some(ref s) => Some(s@),
                None => None,
            },
            opendalconfig: match self.opendalconfig {
                Some(ref s) => Some(s@),
                None => None,
            },
        }
    }
}

impl RawConfigView {
    /// Well-formed: every present raw timeout is a valid signed duration.
    pub open spec fn wf(&self) -> bool {
        match self.server {
            Some(s) => s.wf(),
            None => true,
        }
    }
}

/// The validated application configuration, built once per process start.
pub struct ApplicationConfig {
    pub server: ServerConfig,
    pub database: DatabaseConfig,
    pub opendal: OpendalConfig,
}

/// The mathematical value of an `ApplicationConfig`.
pub ghost struct ApplicationConfigView {
    pub server: ServerConfig,
    pub database: DatabaseConfigView,
    pub opendal: OpendalConfigView,
}

impl View for ApplicationConfig {
    type V = ApplicationConfigView;

    open spec fn view(&self) -> ApplicationConfigView {
        ApplicationConfigView { server: self.server, database: self.database@, opendal: self.opendal@ }
    }
}

/// An overriding value wins over a base value; otherwise the base stands.
pub open spec fn spec_merge_opt<T>(base: Option<T>, over: Option<T>) -> Option<T> {
    match over {
        Some(v) => Some(v),
        None => base,
    }
}

fn merge_opt<T>(base: Option<T>, over: Option<T>) -> (r: Option<T>)
    ensures
        r == spec_merge_opt(base, over),
{
    match over {
        Some(v) => Some(v),
        None => base,
    }
}

/// Key-by-key merge of the `server` section across two layers.
pub open spec fn spec_merge_server(
    base: Option<RawServerSectionView>,
    over: Option<RawServerSectionView>,
) -> Option<RawServerSectionView> {
    match (base, over) {
        (None, None) => None,
        (Some(b), None) => Some(b),
        (None, Some(o)) => Some(o),
        (Some(b), Some(o)) => Some(
            RawServerSectionView {
                port: spec_merge_opt(b.port, o.port),
                ip: spec_merge_opt(b.ip, o.ip),
                graceful_shutdown_timeout: spec_merge_opt(
                    b.graceful_shutdown_timeout,
                    o.graceful_shutdown_timeout,
                ),
            },
        ),
    }
}

/// Key-by-key merge of the `databaseconfig` section across two layers.
pub open spec fn spec_merge_database(
    base: Option<RawDatabaseSectionView>,
    over: Option<RawDatabaseSectionView>,
) -> Option<RawDatabaseSectionView> {
    match (base, over) {
        (None, None) => None,
        (Some(b), None) => Some(b),
        (None, Some(o)) => Some(o),
        (Some(b), Some(o)) => Some(
            RawDatabaseSectionView {
                username: spec_merge_opt(b.username, o.username),
                password: spec_merge_opt(b.password, o.password),
                port: spec_merge_opt(b.port, o.port),
                host: spec_merge_opt(b.host, o.host),
                database_name: spec_merge_opt(b.database_name, o.database_name),
                require_ssl: spec_merge_opt(b.require_ssl, o.require_ssl),
            },
        ),
    }
}

/// Key-by-key merge of the `opendalconfig` section across two layers.
pub open spec fn spec_merge_opendal(
    base: Option<RawOpendalSectionView>,
    over: Option<RawOpendalSectionView>,
) -> Option<RawOpendalSectionView> {
    match (base, over) {
        (None, None) => None,
        (Some(b), None) => Some(b),
        (None, Some(o)) => Some(o),
        (Some(b), Some(o)) => Some(
            RawOpendalSectionView {
                endpoint: spec_merge_opt(b.endpoint, o.endpoint),
                access_key: spec_merge_opt(b.access_key, o.access_key),
                secret_key: spec_merge_opt(b.secret_key, o.secret_key),
                bucket: spec_merge_opt(b.bucket, o.bucket),
                region: spec_merge_opt(b.region, o.region),
            },
        ),
    }
}

/// Merge of a whole override layer onto a base layer.
pub open spec fn spec_merge_config(base: RawConfigView, over: RawConfigView) -> RawConfigView {
    RawConfigView {
        server: spec_merge_server(base.server, over.server),
        databaseconfig: spec_merge_database(base.databaseconfig, over.databaseconfig),
        opendalconfig: spec_merge_opendal(base.opendalconfig, over.opendalconfig),
    }
}

/// Merges the `server` section of an override layer onto the base layer.
fn merge_server_sections(base: Option<RawServerSection>, over: Option<RawServerSection>) -> (r:
    Option<RawServerSection>)
    ensures
        (match r {
            Some(ref s) => spec_merge_server(
                match base {
                    Some(ref b) => Some(b@),
                    None => None,
                },
                match over {
                    Some(ref o) => Some(o@),
                    None => None,
                },
            ) == Some(s@),
            None => spec_merge_server(
                match base {
                    Some(ref b) => Some(b@),
                    None => None,
                },
                match over {
                    Some(ref o) => Some(o@),
                    None => None,
                },
            ) is None,
        }),
{
    match (base, over) {
        (None, None) => None,
        (Some(b), None) => Some(b),
        (None, Some(o)) => Some(o),
        (Some(b), Some(o)) => Some(
            RawServerSection {
                port: merge_opt(b.port, o.port),
                ip: merge_opt(b.ip, o.ip),
                graceful_shutdown_timeout: merge_opt(
                    b.graceful_shutdown_timeout,
                    o.graceful_shutdown_timeout,
                ),
            },
        ),
    }
}

/// Merges the `databaseconfig` section of an override layer onto the base.
fn merge_database_sections(
    base: Option<RawDatabaseSection>,
    over: Option<RawDatabaseSection>,
) -> (r: Option<RawDatabaseSection>)
    ensures
        (match r {
            Some(ref s) => spec_merge_database(
                match base {
                    Some(ref b) => Some(b@),
                    None => None,
                },
                match over {
                    Some(ref o) => Some(o@),
                    None => None,
                },
            ) == Some(s@),
            None => spec_merge_database(
                match base {
                    Some(ref b) => Some(b@),
                    None => None,
                },
                match over {
                    Some(ref o) => Some(o@),
                    None => None,
                },
            ) is None,
        }),
{
    match (base, over) {
        (None, None) => None,
        (Some(b), None) => Some(b),
        (None, Some(o)) => Some(o),
        (Some(b), Some(o)) => Some(
            RawDatabaseSection {
                username: merge_opt(b.username, o.username),
                password: merge_opt(b.password, o.password),
                port: merge_opt(b.port, o.port),
                host: merge_opt(b.host, o.host),
                database_name: merge_opt(b.database_name, o.database_name),
                require_ssl: merge_opt(b.require_ssl, o.require_ssl),
            },
        ),
    }
}

/// Merges the `opendalconfig` section of an override layer onto the base.
fn merge_opendal_sections(
    base: Option<RawOpendalSection>,
    over: Option<RawOpendalSection>,
) -> (r: Option<RawOpendalSection>)
    ensures
        (match r {
            Some(ref s) => spec_merge_opendal(
                match base {
                    Some(ref b) => Some(b@),
                    None => None,
                },
                match over {
                    Some(ref o) => Some(o@),
                    None => None,
                },
            ) == Some(s@),
            None => spec_merge_opendal(
                match base {
                    Some(ref b) => Some(b@),
                    None => None,
                },
                match over {
                    Some(ref o) => Some(o@),
                    None => None,
                },
            ) is None,
        }),
{
    match (base, over) {
        (None, None) => None,
        (Some(b), None) => Some(b),
        (None, Some(o)) => Some(o),
        (Some(b), Some(o)) => Some(
            RawOpendalSection {
                endpoint: merge_opt(b.endpoint, o.endpoint),
                access_key: merge_opt(b.access_key, o.access_key),
                secret_key: merge_opt(b.secret_key, o.secret_key),
                bucket: merge_opt(b.bucket, o.bucket),
                region: merge_opt(b.region, o.region),
            },
        ),
    }
}

/// Merges the profile-selected override layer onto the base layer, key by
/// key within each section.
pub fn merge_config(base: RawConfig, over: RawConfig) -> (r: RawConfig)
    ensures
        r@ == spec_merge_config(base@, over@),
{
    let server = merge_server_sections(base.server, over.server);
    let databaseconfig = merge_database_sections(base.databaseconfig, over.databaseconfig);
    let opendalconfig = merge_opendal_sections(base.opendalconfig, over.opendalconfig);
    RawConfig { server, databaseconfig, opendalconfig }
}

/// What loading the required `server` section yields: an absent section or
/// field is fatal, the port must be a numeral in range, and the shutdown
/// timeout must not be negative.
pub open spec fn spec_load_server(raw: Option<RawServerSectionView>) -> Result<
    ServerConfig,
    ConfigError,
> {
    match raw {
        None => Err(ConfigError::MissingServerSection),
        Some(r) => {
            match (r.port, r.ip, r.graceful_shutdown_timeout) {
                (Some(port), Some(ip), Some(timeout)) => {
                    match spec_parse_port(port) {
                        None => Err(ConfigError::InvalidPort),
                        Some(p) => {
                            match spec_validate_shutdown_timeout(timeout) {
                                Err(e) => Err(e),
                                Ok(t) => Ok(
                                    ServerConfig { port: p, ip, graceful_shutdown_timeout: t },
                                ),
                            }
                        },
                    }
                },
                _ => Err(ConfigError::MissingServerField),
            }
        },
    }
}

/// Loads and validates the `server` section.
pub fn load_server_config(raw: Option<RawServerSection>) -> (r: Result<ServerConfig, ConfigError>)
    requires
        (match raw {
            Some(ref s) => s@.wf(),
            None => true,
        }),
    ensures
        r == spec_load_server(
            match raw {
                Some(ref s) => Some(s@),
                None => None,
            },
        ),
        r is Ok ==> r->Ok_0.wf(),
{
    let section = match raw {
        None => {
            return Err(ConfigError::MissingServerSection);
        },
        Some(s) => s,
    };
    let (port_text, ip, timeout) = match (section.port, section.ip, section.graceful_shutdown_timeout) {
        (Some(p), Some(i), Some(t)) => (p, i, t),
        _ => {
            return Err(ConfigError::MissingServerField);
        },
    };
    let port = match parse_port(port_text.as_str()) {
        None => {
            return Err(ConfigError::InvalidPort);
        },
        Some(p) => p,
    };
    let graceful_shutdown_timeout = match validate_shutdown_timeout(timeout) {
        Err(e) => {
            return Err(e);
        },
        Ok(t) => t,
    };
    Ok(ServerConfig { port, ip, graceful_shutdown_timeout })
}

/// A `server` section whose port is not a numeral naming an unsigned
/// 16-bit integer always fails to load, whatever the other fields hold.
pub proof fn lemma_invalid_port_fails_load(raw: RawServerSectionView)
    requires
        raw.port is Some,
        raw.ip is Some,
        raw.graceful_shutdown_timeout is Some,
        spec_parse_port(raw.port->0) is None,
    ensures
        spec_load_server(Some(raw)) == Err::<ServerConfig, ConfigError>(ConfigError::InvalidPort),
{
}

/// A complete `server` section with a valid port loads exactly when its
/// shutdown timeout is not negative; a negative timeout is always the
/// validation failure, never a clamped value.
pub proof fn lemma_shutdown_timeout_gate(raw: RawServerSectionView)
    requires
        raw.port is Some,
        raw.ip is Some,
        raw.graceful_shutdown_timeout is Some,
        spec_parse_port(raw.port->0) is Some,
    ensures
        spec_load_server(Some(raw)) is Ok <==> !raw.graceful_shutdown_timeout->0.spec_is_negative(),
        raw.graceful_shutdown_timeout->0.spec_is_negative() ==> spec_load_server(Some(raw))
            == Err::<ServerConfig, ConfigError>(ConfigError::NegativeShutdownTimeout),
        spec_load_server(Some(raw)) is Ok ==> spec_load_server(Some(raw))->Ok_0.port
            == spec_parse_port(raw.port->0)->0,
{
}

/// What loading the `databaseconfig` section yields: an absent section is
/// the documented default, an absent field of a present section is fatal,
/// and the port must be a numeral in range.
pub open spec fn spec_load_database(raw: Option<RawDatabaseSectionView>) -> Result<
    DatabaseConfigView,
    ConfigError,
> {
    match raw {
        None => Ok(spec_default_database_config()),
        Some(r) => {
            match (r.username, r.password, r.port, r.host, r.database_name, r.require_ssl) {
                (
                    Some(username),
                    Some(password),
                    Some(port),
                    Some(host),
                    Some(database_name),
                    Some(require_ssl),
                ) => {
                    match spec_parse_port(port) {
                        None => Err(ConfigError::InvalidPort),
                        Some(p) => Ok(
                            DatabaseConfigView {
                                username,
                                password,
                                port: p,
                                host,
                                database_name,
                                require_ssl,
                            },
                        ),
                    }
                },
                _ => Err(ConfigError::MissingDatabaseField),
            }
        },
    }
}

/// Loads and validates the `databaseconfig` section.
pub fn load_database_config(raw: Option<RawDatabaseSection>) -> (r: Result<
    DatabaseConfig,
    ConfigError,
>)
    ensures
        (match r {
            Ok(c) => spec_load_database(
                match raw {
                    Some(ref s) => Some(s@),
                    None => None,
                },
            ) == Ok::<DatabaseConfigView, ConfigError>(c@),
            Err(e) => spec_load_database(
                match raw {
                    Some(ref s) => Some(s@),
                    None => None,
                },
            ) == Err::<DatabaseConfigView, ConfigError>(e),
        }),
{
    let section = match raw {
        None => {
            return Ok(DatabaseConfig::default());
        },
        Some(s) => s,
    };
    match (
        section.username,
        section.password,
        section.port,
        section.host,
        section.database_name,
        section.require_ssl,
    ) {
        (Some(username), Some(password), Some(port), Some(host), Some(database_name), Some(
            require_ssl,
        )) => {
            let port = match parse_port(port.as_str()) {
                None => {
                    return Err(ConfigError::InvalidPort);
                },
                Some(p) => p,
            };
            Ok(
                DatabaseConfig {
                    username,
                    password: Secret::new(password),
                    port,
                    host,
                    database_name,
                    require_ssl,
                },
            )
        },
        _ => Err(ConfigError::MissingDatabaseField),
    }
}

/// A `databaseconfig` section absent from the source always yields the
/// documented all-default value, never a load failure.
pub proof fn lemma_absent_database_section_defaults()
    ensures
        spec_load_database(None) == Ok::<DatabaseConfigView, ConfigError>(
            spec_default_database_config(),
        ),
{
}

/// What loading the `opendalconfig` section yields: an absent section is
/// the documented default, an absent field of a present section is fatal.
pub open spec fn spec_load_opendal(raw: Option<RawOpendalSectionView>) -> Result<
    OpendalConfigView,
    ConfigError,
> {
    match raw {
        None => Ok(spec_default_opendal_config()),
        Some(r) => {
            match (r.endpoint, r.access_key, r.secret_key, r.bucket, r.region) {
                (Some(endpoint), Some(access_key), Some(secret_key), Some(bucket), Some(
                    region,
                )) => Ok(OpendalConfigView { endpoint, access_key, secret_key, bucket, region }),
                _ => Err(ConfigError::MissingStorageField),
            }
        },
    }
}

/// Loads and validates the `opendalconfig` section.
pub fn load_opendal_config(raw: Option<RawOpendalSection>) -> (r: Result<
    OpendalConfig,
    ConfigError,
>)
    ensures
        (match r {
            Ok(c) => spec_load_opendal(
                match raw {
                    Some(ref s) => Some(s@),
                    None => None,
                },
            ) == Ok::<OpendalConfigView, ConfigError>(c@),
            Err(e) => spec_load_opendal(
                match raw {
                    Some(ref s) => Some(s@),
                    None => None,
                },
            ) == Err::<OpendalConfigView, ConfigError>(e),
        }),
{
    let section = match raw {
        None => {
            return Ok(OpendalConfig::default());
        },
        Some(s) => s,
    };
    match (section.endpoint, section.access_key, section.secret_key, section.bucket, section.region) {
        (Some(endpoint), Some(access_key), Some(secret_key), Some(bucket), Some(region)) => Ok(
            OpendalConfig { endpoint, access_key, secret_key, bucket, region },
        ),
        _ => Err(ConfigError::MissingStorageField),
    }
}

/// An `opendalconfig` section absent from the source always yields the
/// documented all-default value, never a load failure.
pub proof fn lemma_absent_opendal_section_defaults()
    ensures
        spec_load_opendal(None) == Ok::<OpendalConfigView, ConfigError>(
            spec_default_opendal_config(),
        ),
{
}

/// The override layer the resolved profile selects.
pub open spec fn spec_select_overrides(
    profile: Profile,
    dev: RawConfigView,
    prod: RawConfigView,
) -> RawConfigView {
    match profile {
        Profile::Development => dev,
        Profile::Production => prod,
    }
}

/// What loading the whole configuration yields: the profile-selected
/// override layer merged onto the base layer, then each section loaded in
/// source order — `server` first, then `databaseconfig`, then
/// `opendalconfig` — stopping at the first fatal error.
pub open spec fn spec_load_application(
    profile: Profile,
    base: RawConfigView,
    dev: RawConfigView,
    prod: RawConfigView,
) -> Result<ApplicationConfigView, ConfigError> {
    let merged = spec_merge_config(base, spec_select_overrides(profile, dev, prod));
    match spec_load_server(merged.server) {
        Err(e) => Err(e),
        Ok(server) => {
            match spec_load_database(merged.databaseconfig) {
                Err(e) => Err(e),
                Ok(database) => {
                    match spec_load_opendal(merged.opendalconfig) {
                        Err(e) => Err(e),
                        Ok(opendal) => Ok(ApplicationConfigView { server, database, opendal }),
                    }
                },
            }
        },
    }
}

/// Loads the application configuration from the base layer and the two
/// profile override layers, applying the overrides the profile selects.
pub fn load_application_config(
    profile: Profile,
    base: RawConfig,
    dev_overrides: RawConfig,
    prod_overrides: RawConfig,
) -> (r: Result<ApplicationConfig, ConfigError>)
    requires
        base@.wf(),
        dev_overrides@.wf(),
        prod_overrides@.wf(),
    ensures
        (match r {
            Ok(c) => spec_load_application(profile, base@, dev_overrides@, prod_overrides@) == Ok::<
                ApplicationConfigView,
                ConfigError,
            >(c@),
            Err(e) => spec_load_application(profile, base@, dev_overrides@, prod_overrides@)
                == Err::<ApplicationConfigView, ConfigError>(e),
        }),
{
    let overrides = match profile {
        Profile::Development => dev_overrides,
        Profile::Production => prod_overrides,
    };
    let merged = merge_config(base, overrides);
    let server = match load_server_config(merged.server) {
        Err(e) => {
            return Err(e);
        },
        Ok(s) => s,
    };
    let database = match load_database_config(merged.databaseconfig) {
        Err(e) => {
            return Err(e);
        },
        Ok(d) => d,
    };
    let opendal = match load_opendal_config(merged.opendalconfig) {
        Err(e) => {
            return Err(e);
        },
        Ok(o) => o,
    };
    Ok(ApplicationConfig { server, database, opendal })
}

} // verus!
