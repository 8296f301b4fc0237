//! The configuration of the server, built from the values of its
//! environment variables.

use crate::error::AppError;
use crate::error::AppResult;
use crate::text::decimal;
use crate::text::decimal_text;
use crate::text::parse_decimal;
use crate::text::parse_number;
use crate::text::ParseFailure;
use vstd::prelude::*;

verus! {

/// The variables that the server reads, each as the process found it:
/// `None` where the variable is not set.
pub struct Environment {
    /// `SERVER_HOST`
    pub server_host: Option<String>,
    /// `SERVER_PORT`
    pub server_port: Option<String>,
    /// `POSTGRES_USER`
    pub postgres_user: Option<String>,
    /// `POSTGRES_PASSWORD`
    pub postgres_password: Option<String>,
    /// `POSTGRES_PORT`
    pub postgres_port: Option<String>,
    /// `POSTGRES_HOST`
    pub postgres_host: Option<String>,
    /// `POSTGRES_DB`
    pub postgres_db: Option<String>,
    /// `DB_MAX_CONN`
    pub db_max_conn: Option<String>,
    /// `MIGRATE_RUN`
    pub migrate_run: Option<String>,
}

/// The largest port number.
pub const MAX_PORT: u32 = 65535;

/// The size of the connection pool where `DB_MAX_CONN` gives none.
pub const DEFAULT_MAX_CONNECTIONS: u32 = 5;

/// The text of a variable, or `default` where it is not set.
pub open spec fn value_or(variable: Option<String>, default: Seq<char>) -> Seq<char> {
    match variable {
        Some(value) => value@,
        None => default,
    }
}

/// What a number that does not parse is reported with.
pub open spec fn failure_text(failure: ParseFailure) -> Seq<char> {
    match failure {
        ParseFailure::Empty => "cannot parse integer from empty string"@,
        ParseFailure::InvalidDigit => "invalid digit found in string"@,
        ParseFailure::PosOverflow => "number too large to fit in target type"@,
    }
}

/// What a required variable that is not set is reported with.
pub open spec fn missing_text() -> Seq<char> {
    "environment variable not found"@
}

/// Whether `result` is an internal error with the detail `detail`.
pub open spec fn is_internal<T>(result: AppResult<T>, detail: Seq<char>) -> bool {
    result matches Err(AppError::InternalServer(text)) && text@ == detail
}

fn failure_error(failure: ParseFailure) -> (error: AppError)
    ensures
        error matches AppError::InternalServer(text) && text@ == failure_text(failure),
{
    match failure {
        ParseFailure::Empty => AppError::InternalServer(
            "cannot parse integer from empty string".to_owned(),
        ),
        ParseFailure::InvalidDigit => AppError::InternalServer(
            "invalid digit found in string".to_owned(),
        ),
        ParseFailure::PosOverflow => AppError::InternalServer(
            "number too large to fit in target type".to_owned(),
        ),
    }
}

/// Reads a port number.
fn parse_port(text: &str) -> (port: AppResult<u16>)
    ensures
        match parse_decimal(text@, MAX_PORT as nat) {
            Ok(value) => port matches Ok(p) && p == value,
            Err(failure) => is_internal(port, failure_text(failure)),
        },
{
    match parse_number(text, MAX_PORT) {
        Ok(value) => Ok(value as u16),
        Err(failure) => Err(failure_error(failure)),
    }
}

/// The value of a variable that must be set.
fn required(variable: &Option<String>) -> (value: AppResult<String>)
    ensures
        match *variable {
            Some(set) => value matches Ok(text) && text@ == set@,
            None => is_internal(value, missing_text()),
        },
{
    match variable {
        Some(set) => Ok(set.clone()),
        None => Err(AppError::InternalServer("environment variable not found".to_owned())),
    }
}

/// Whether `built` is what `expected` describes: the value with that view,
/// or an internal error with that detail.
pub open spec fn settled<T: View>(built: AppResult<T>, expected: Result<T::V, Seq<char>>) -> bool {
    match expected {
        Ok(view) => built matches Ok(value) && value@ == view,
        Err(detail) => is_internal(built, detail),
    }
}

/// Where the server listens.
pub struct AppSettings {
    host: String,
    port: u16,
}

pub struct AppSettingsView {
    pub host: Seq<char>,
    pub port: u16,
}

impl View for AppSettings {
    type V = AppSettingsView;

    closed spec fn view(&self) -> AppSettingsView {
        AppSettingsView { host: self.host@, port: self.port }
    }
}

/// The listener's settings that `env` asks for: the host is `SERVER_HOST` or
/// `127.0.0.1`, the port `SERVER_PORT` or `8080`.
pub open spec fn app_settings_of(env: Environment) -> Result<AppSettingsView, Seq<char>> {
    match parse_decimal(value_or(env.server_port, "8080"@), MAX_PORT as nat) {
        Ok(port) => Ok(
            AppSettingsView { host: value_or(env.server_host, "127.0.0.1"@), port: port as u16 },
        ),
        Err(failure) => Err(failure_text(failure)),
    }
}

impl AppSettings {
    /// A port that is no number up to 65535 is an internal error.
    pub fn build(env: &Environment) -> (built: AppResult<Self>)
        ensures
            settled(built, app_settings_of(*env)),
    {
        let host = match &env.server_host {
            Some(host) => host.clone(),
            None => "127.0.0.1".to_owned(),
        };
        let port = match &env.server_port {
            Some(port) => parse_port(port.as_str()),
            None => parse_port("8080"),
        };
        match port {
            Ok(port) => Ok(AppSettings { host, port }),
            Err(error) => Err(error),
        }
    }

    pub fn host(&self) -> (host: &String)
        ensures
            host@ == self@.host,
    {
        &self.host
    }

    pub fn port(&self) -> (port: u16)
        ensures
            port == self@.port,
    {
        self.port
    }

    /// The address to bind: host, a colon, the port in decimal.
    pub fn get_addr(&self) -> (addr: String)
        ensures
            addr@ == self@.host + seq![':'] + decimal(self@.port as nat),
    {
        proof {
            reveal_strlit(":");
        }
        let mut addr = self.host.clone();
        addr.append(":");
        let port = decimal_text(self.port as u32);
        addr.append(port.as_str());
        addr
    }
}

/// How the database is reached.
pub struct DatabaseSettings {
    pub username: String,
    pub password: String,
    pub port: u16,
    pub host: String,
    pub database_name: String,
}

pub struct DatabaseSettingsView {
    pub username: Seq<char>,
    pub password: Seq<char>,
    pub port: u16,
    pub host: Seq<char>,
    pub database_name: Seq<char>,
}

impl View for DatabaseSettings {
    type V = DatabaseSettingsView;

    open spec fn view(&self) -> DatabaseSettingsView {
        DatabaseSettingsView {
            username: self.username@,
            password: self.password@,
            port: self.port,
            host: self.host@,
            database_name: self.database_name@,
        }
    }
}

/// The database settings that `env` asks for. Every one of `POSTGRES_USER`,
/// `POSTGRES_PASSWORD`, `POSTGRES_PORT`, `POSTGRES_HOST` and `POSTGRES_DB`
/// is required; they are read in this order, and the first that is not set,
/// or a port that is no number, is the failure.
pub open spec fn database_settings_of(env: Environment) -> Result<
    DatabaseSettingsView,
    Seq<char>,
> {
    if env.postgres_user is None || env.postgres_password is None || env.postgres_port is None {
        Err(missing_text())
    } else {
        match parse_decimal(env.postgres_port->0@, MAX_PORT as nat) {
            Err(failure) => Err(failure_text(failure)),
            Ok(port) => if env.postgres_host is None || env.postgres_db is None {
                Err(missing_text())
            } else {
                Ok(
                    DatabaseSettingsView {
                        username: env.postgres_user->0@,
                        password: env.postgres_password->0@,
                        port: port as u16,
                        host: env.postgres_host->0@,
                        database_name: env.postgres_db->0@,
                    },
                )
            },
        }
    }
}

impl DatabaseSettings {
    pub fn build(env: &Environment) -> (built: AppResult<Self>)
        ensures
            settled(built, database_settings_of(*env)),
    {
        let username = match required(&env.postgres_user) {
            Ok(value) => value,
            Err(error) => {
                return Err(error);
            },
        };
        let password = match required(&env.postgres_password) {
            Ok(value) => value,
            Err(error) => {
                return Err(error);
            },
        };
        let port_text = match required(&env.postgres_port) {
            Ok(value) => value,
            Err(error) => {
                return Err(error);
            },
        };
        let port = match parse_port(port_text.as_str()) {
            Ok(value) => value,
            Err(error) => {
                return Err(error);
            },
        };
        let host = match required(&env.postgres_host) {
            Ok(value) => value,
            Err(error) => {
                return Err(error);
            },
        };
        let database_name = match required(&env.postgres_db) {
            Ok(value) => value,
            Err(error) => {
                return Err(error);
            },
        };
        Ok(DatabaseSettings { username, password, port, host, database_name })
    }
}

/// The whole configuration.
pub struct AppConfig {
    pub app: AppSettings,
    pub database: DatabaseSettings,
}

pub struct AppConfigView {
    pub app: AppSettingsView,
    pub database: DatabaseSettingsView,
}

impl View for AppConfig {
    type V = AppConfigView;

    open spec fn view(&self) -> AppConfigView {
        AppConfigView { app: self.app@, database: self.database@ }
    }
}

/// The configuration that `env` asks for: the listener's settings, then the
/// database's; the first failure is the result.
pub open spec fn app_config_of(env: Environment) -> Result<AppConfigView, Seq<char>> {
    match app_settings_of(env) {
        Err(detail) => Err(detail),
        Ok(app) => match database_settings_of(env) {
            Err(detail) => Err(detail),
            Ok(database) => Ok(AppConfigView { app, database }),
        },
    }
}

impl AppConfig {
    pub fn build(env: &Environment) -> (built: AppResult<Self>)
        ensures
            settled(built, app_config_of(*env)),
    {
        let app = match AppSettings::build(env) {
            Ok(app) => app,
            Err(error) => {
                return Err(error);
            },
        };
        let database = match DatabaseSettings::build(env) {
            Ok(database) => database,
            Err(error) => {
                return Err(error);
            },
        };
        Ok(AppConfig { app, database })
    }
}

/// How the connection pool is set up.
#[derive(Debug, Clone, Copy, PartialEq, Eq, Structural)]
pub struct PoolSettings {
    /// The most connections that the pool opens.
    pub max_connections: u32,
    /// Whether the schema migrations run before the server serves.
    pub run_migrations: bool,
}

/// The pool's size: `DB_MAX_CONN` where it is set to a number that fits in
/// 32 bits, else the default.
pub open spec fn max_connections_of(variable: Option<String>) -> u32 {
    match variable {
        Some(text) => match parse_decimal(text@, u32::MAX as nat) {
            Ok(value) => value as u32,
            Err(_) => DEFAULT_MAX_CONNECTIONS,
        },
        None => DEFAULT_MAX_CONNECTIONS,
    }
}

/// Whether migrations run: only where `MIGRATE_RUN` is exactly `true`.
pub open spec fn run_migrations_of(variable: Option<String>) -> bool {
    match variable {
        Some(text) => text@ == "true"@,
        None => false,
    }
}

impl PoolSettings {
    pub fn build(env: &Environment) -> (built: Self)
        ensures
            built.max_connections == max_connections_of(env.db_max_conn),
            built.run_migrations == run_migrations_of(env.migrate_run),
    {
        let max_connections = match &env.db_max_conn {
            Some(text) => match parse_number(text.as_str(), u32::MAX) {
                Ok(value) => value,
                Err(_) => DEFAULT_MAX_CONNECTIONS,
            },
            None => DEFAULT_MAX_CONNECTIONS,
        };
        let run_migrations = match &env.migrate_run {
            Some(text) => {
                let wanted = "true".to_owned();
                *text == wanted
            },
            None => false,
        };
        PoolSettings { max_connections, run_migrations }
    }
}

} // verus!
