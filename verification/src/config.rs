//! The service's configuration, built once from the raw values of its
//! environment and never changed afterwards.

use vstd::prelude::*;
use vstd::string::*;
use crate::decimal::{decimal_text, lemma_decimal_text_reads_back, parse_bounded, parse_unsigned};
use crate::lifecycle::Termination;

verus! {

/// Name of the variable that holds the required connection string.
pub const DATABASE_URL: &'static str = "DATABASE_URL";

/// Name of the variable that holds the listen port.
pub const APP_PORT: &'static str = "APP_PORT";

/// Name of the variable that holds the drain window, in seconds.
pub const GRACEFUL_SHUTDOWN_TIMEOUT: &'static str = "GRACEFUL_SHUTDOWN_TIMEOUT";

/// The port used when none is configured, or when the configured one is not a port.
pub const DEFAULT_APP_PORT: u16 = 8080;

/// The drain window, in seconds, used when none is configured, or when the
/// configured one is not a number of seconds.
pub const DEFAULT_SHUTDOWN_TIMEOUT: u64 = 10;

/// The bytes of a raw value, if the value is present.
pub open spec fn raw_bytes(raw: Option<&str>) -> Option<Seq<u8>> {
    match raw {
        Some(text) => Some(text.spec_bytes()),
        None => None,
    }
}

/// The listen port that a raw value selects: the port it writes in decimal,
/// and the default when it is absent or writes none.
pub open spec fn app_port_of(raw: Option<Seq<u8>>) -> u16 {
    match raw {
        Some(text) => match parse_unsigned(text, u16::MAX as nat) {
            Some(port) => port as u16,
            None => DEFAULT_APP_PORT,
        },
        None => DEFAULT_APP_PORT,
    }
}

/// The drain window that a raw value selects: the seconds it writes in
/// decimal, and the default when it is absent or writes none.
pub open spec fn shutdown_timeout_of(raw: Option<Seq<u8>>) -> u64 {
    match raw {
        Some(text) => match parse_unsigned(text, u64::MAX as nat) {
            Some(secs) => secs as u64,
            None => DEFAULT_SHUTDOWN_TIMEOUT,
        },
        None => DEFAULT_SHUTDOWN_TIMEOUT,
    }
}

/// Selects the listen port from the raw value of `APP_PORT`.
pub fn app_port_from(raw: Option<&str>) -> (port: u16)
    ensures
        port == app_port_of(raw_bytes(raw)),
{
    match raw {
        Some(text) => match parse_bounded(text, 65535) {
            Some(port) => port as u16,
            None => DEFAULT_APP_PORT,
        },
        None => DEFAULT_APP_PORT,
    }
}

/// Selects the drain window from the raw value of `GRACEFUL_SHUTDOWN_TIMEOUT`.
pub fn shutdown_timeout_from(raw: Option<&str>) -> (secs: u64)
    ensures
        secs == shutdown_timeout_of(raw_bytes(raw)),
{
    match raw {
        Some(text) => match parse_bounded(text, u64::MAX) {
            Some(secs) => secs,
            None => DEFAULT_SHUTDOWN_TIMEOUT,
        },
        None => DEFAULT_SHUTDOWN_TIMEOUT,
    }
}

/// Why no configuration could be built.
#[derive(Clone, Copy, Debug, PartialEq, Eq, Structural)]
pub enum ConfigError {
    /// The required connection string is absent.
    MissingDatabaseUrl,
}

impl ConfigError {
    /// How a process ends that meets this error.
    pub open spec fn termination_of(self) -> Termination {
        Termination::MissingConfiguration
    }

    /// The warning to log before the process gives up.
    pub fn message(&self) -> (text: &'static str)
        ensures
            text@ == "DATABASE_URL is not set"@,
    {
        "DATABASE_URL is not set"
    }

    /// How a process ends that meets this error.
    pub fn termination(&self) -> (t: Termination)
        ensures
            t == self.termination_of(),
    {
        Termination::MissingConfiguration
    }
}

/// What a configuration holds, as plain values.
pub struct ConfigView {
    /// The connection string, as given.
    pub database_url: Seq<char>,
    /// The TCP port the listener binds.
    pub app_port: u16,
    /// The drain window, in seconds.
    pub shutdown_timeout: u64,
}

/// The configuration of one process. It exists only if the required
/// connection string was present, and it offers no way to change it.
///
/// It cannot be printed for debugging: the connection string may hold a secret.
pub struct Config {
    database_url: String,
    app_port: u16,
    shutdown_timeout: u64,
}

impl View for Config {
    type V = ConfigView;

    closed spec fn view(&self) -> ConfigView {
        ConfigView {
            database_url: self.database_url@,
            app_port: self.app_port,
            shutdown_timeout: self.shutdown_timeout,
        }
    }
}

/// The four octets of the address that stands for every local interface.
pub open spec fn all_interfaces() -> Seq<u8> {
    seq![0u8, 0u8, 0u8, 0u8]
}

/// The configuration that the three raw values give: none without a
/// connection string, and otherwise one that holds the string as it is, with
/// the port and the drain window that the other two select.
pub open spec fn loaded(
    database_url: Option<Seq<char>>,
    app_port: Option<Seq<u8>>,
    shutdown_timeout: Option<Seq<u8>>,
) -> Result<ConfigView, ConfigError> {
    match database_url {
        Some(url) => Ok(
            ConfigView {
                database_url: url,
                app_port: app_port_of(app_port),
                shutdown_timeout: shutdown_timeout_of(shutdown_timeout),
            },
        ),
        None => Err(ConfigError::MissingDatabaseUrl),
    }
}

/// The address on which a listener is bound for configuration `config`:
/// every interface, and the configured port.
pub open spec fn bind_address_of(config: ConfigView) -> (Seq<u8>, u16) {
    (all_interfaces(), config.app_port)
}

/// The outcome of loading, with the configuration taken as a plain value.
pub open spec fn outcome_view(r: Result<Config, ConfigError>) -> Result<ConfigView, ConfigError> {
    match r {
        Ok(config) => Ok(config@),
        Err(e) => Err(e),
    }
}

/// The characters of a string, if the string is present.
pub open spec fn text_view(text: Option<String>) -> Option<Seq<char>> {
    match text {
        Some(t) => Some(t@),
        None => None,
    }
}

impl Config {
    /// Builds the configuration from the raw values of `DATABASE_URL`,
    /// `APP_PORT` and `GRACEFUL_SHUTDOWN_TIMEOUT`, each `None` when the
    /// variable is not set to a readable string.
    ///
    /// Fails exactly when the connection string is absent. A port or a drain
    /// window that cannot be read is never an error: the default takes its place.
    pub fn load(
        database_url: Option<String>,
        app_port: Option<&str>,
        shutdown_timeout: Option<&str>,
    ) -> (r: Result<Config, ConfigError>)
        ensures
            outcome_view(r) == loaded(
                text_view(database_url),
                raw_bytes(app_port),
                raw_bytes(shutdown_timeout),
            ),
    {
        match database_url {
            Some(url) => Ok(
                Config {
                    database_url: url,
                    app_port: app_port_from(app_port),
                    shutdown_timeout: shutdown_timeout_from(shutdown_timeout),
                },
            ),
            None => Err(ConfigError::MissingDatabaseUrl),
        }
    }

    /// The connection string.
    pub fn database_url(&self) -> (url: &str)
        ensures
            url@ == self@.database_url,
    {
        self.database_url.as_str()
    }

    /// The TCP port the listener binds.
    pub fn app_port(&self) -> (port: u16)
        ensures
            port == self@.app_port,
    {
        self.app_port
    }

    /// The drain window, in seconds.
    pub fn shutdown_timeout(&self) -> (secs: u64)
        ensures
            secs == self@.shutdown_timeout,
    {
        self.shutdown_timeout
    }

    /// The address the listener binds: the configured port on every interface.
    pub fn bind_address(&self) -> (addr: ([u8; 4], u16))
        ensures
            (addr.0@, addr.1) == bind_address_of(self@),
    {
        ([0u8, 0u8, 0u8, 0u8], self.app_port)
    }
}

/// The listener is bound on every interface, on the port that `APP_PORT`
/// writes when it writes one, and on 8080 when it is absent or writes none,
/// whatever the other values are.
pub proof fn lemma_listen_port(
    database_url: Seq<char>,
    app_port: Option<Seq<u8>>,
    shutdown_timeout: Option<Seq<u8>>,
)
    ensures
        loaded(Some(database_url), app_port, shutdown_timeout) matches Ok(config)
            && bind_address_of(config) == (
            all_interfaces(),
            match app_port {
                Some(text) => match parse_unsigned(text, 65535) {
                    Some(port) => port as u16,
                    None => 8080u16,
                },
                None => 8080u16,
            },
        ),
{
}

/// The drain window is the number of seconds that
/// `GRACEFUL_SHUTDOWN_TIMEOUT` writes when it writes one, zero included, and
/// ten seconds when it is absent or writes none, whatever the other values are.
pub proof fn lemma_drain_window(
    database_url: Seq<char>,
    app_port: Option<Seq<u8>>,
    shutdown_timeout: Option<Seq<u8>>,
)
    ensures
        loaded(Some(database_url), app_port, shutdown_timeout) matches Ok(config)
            && config.shutdown_timeout == (match shutdown_timeout {
            Some(text) => match parse_unsigned(text, 0xffff_ffff_ffff_ffff) {
                Some(secs) => secs as u64,
                None => 10u64,
            },
            None => 10u64,
        }),
{
}

/// Every port can be configured: the decimal text of a port selects that port.
pub proof fn lemma_every_port_is_selectable(port: u16)
    ensures
        app_port_of(Some(decimal_text(port as nat))) == port,
{
    lemma_decimal_text_reads_back(port as nat, u16::MAX as nat);
}

/// Every drain window can be configured, zero included: the decimal text of
/// a number of seconds selects that number.
pub proof fn lemma_every_drain_window_is_selectable(secs: u64)
    ensures
        shutdown_timeout_of(Some(decimal_text(secs as nat))) == secs,
{
    lemma_decimal_text_reads_back(secs as nat, u64::MAX as nat);
}

/// Without a connection string there is no configuration, hence no address
/// to bind, and the process ends with exit status 1, whatever the other
/// values are.
pub proof fn lemma_missing_database_url(
    app_port: Option<Seq<u8>>,
    shutdown_timeout: Option<Seq<u8>>,
)
    ensures
        loaded(None, app_port, shutdown_timeout) matches Err(e) && e.termination_of().exit_code_of()
            == 1,
{
}

} // verus!
