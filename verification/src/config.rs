//! The bot's configuration, its defaults, and the log level it names.

use vstd::prelude::*;
use crate::text::str_eq;

verus! {

/// The whole configuration file. Each table falls back to its default when
/// missing (see the `default_*` functions).
#[derive(Debug)]
pub struct Config {
    pub discord: DiscordConfig,
    pub tracing: TracingConfig,
    pub postgres: PostgresConfig,
    pub lavalink: VoiceConfig,
}

/// The `[discord]` (or `[bot]`) table.
#[derive(Debug)]
pub struct DiscordConfig {
    pub token: String,
}

/// The `[tracing]` table.
#[derive(Debug)]
pub struct TracingConfig {
    pub enabled: bool,
    pub tracing_level: String,
}

/// The `[postgres]` (or `[database]`, `[postgresql]`) table.
#[derive(Debug)]
pub struct PostgresConfig {
    pub host: String,
    pub port: u16,
    pub user: String,
    pub password: String,
    pub database: String,
}

/// The `[lavalink]` (or `[music]`, `[voice]`) table.
#[derive(Debug)]
pub struct VoiceConfig {
    pub host: String,
    pub port: u16,
    pub password: String,
}

/// The value of an environment variable, or the empty string where it could
/// not be read (`None`).
pub open spec fn env_value_or_empty(var: Option<String>) -> Seq<char> {
    match var {
        Some(v) => v@,
        None => Seq::empty(),
    }
}

/// The value that an environment lookup gave, or the empty string where it
/// failed.
pub fn env_or_empty(var: Option<String>) -> (r: String)
    ensures
        r@ == env_value_or_empty(var),
{
    match var {
        Some(v) => v,
        None => String::new(),
    }
}

/// The default `[discord]` table; `token_var` is the lookup of `DISCORD_TOKEN`.
pub fn default_discord_config(token_var: Option<String>) -> (c: DiscordConfig)
    ensures
        c.token@ == env_value_or_empty(token_var),
{
    DiscordConfig { token: env_or_empty(token_var) }
}

/// The default `[lavalink]` table; `password_var` is the lookup of
/// `LAVALINK_PASSWORD`.
pub fn default_voice_config(password_var: Option<String>) -> (c: VoiceConfig)
    ensures
        c.host@ == "127.0.0.1"@,
        c.port == 8080,
        c.password@ == env_value_or_empty(password_var),
{
    VoiceConfig { host: voice_host(), port: voice_port(), password: env_or_empty(password_var) }
}

/// The default `[tracing]` table: enabled, at level `info`.
pub fn default_tracing_config() -> (c: TracingConfig)
    ensures
        c.enabled,
        c.tracing_level@ == "info"@,
{
    TracingConfig { enabled: true, tracing_level: String::from_str("info") }
}

/// The default `[postgres]` table; `password_var` is the lookup of
/// `POSTGRES_PASSWORD`.
pub fn default_postgres_config(password_var: Option<String>) -> (c: PostgresConfig)
    ensures
        c.host@ == "db"@,
        c.port == 5432,
        c.user@ == "postgres"@,
        c.password@ == env_value_or_empty(password_var),
        c.database@ == "postgres"@,
{
    PostgresConfig {
        host: database_host(),
        port: database_port(),
        user: database_user(),
        password: env_or_empty(password_var),
        database: database(),
    }
}

/// The default of `tracing.enabled`.
pub fn default_true() -> (b: bool)
    ensures
        b,
{
    true
}

/// The default of `tracing.tracing_level`.
pub fn tracing_level() -> (s: String)
    ensures
        s@ == "info"@,
{
    String::from_str("info")
}

/// The default of `postgres.host`.
pub fn database_host() -> (s: String)
    ensures
        s@ == "db"@,
{
    String::from_str("db")
}

/// The default of `postgres.port`.
pub fn database_port() -> (p: u16)
    ensures
        p == 5432,
{
    5432
}

/// The default of `postgres.user`.
pub fn database_user() -> (s: String)
    ensures
        s@ == "postgres"@,
{
    String::from_str("postgres")
}

/// The default of `postgres.database`.
pub fn database() -> (s: String)
    ensures
        s@ == "postgres"@,
{
    String::from_str("postgres")
}

/// The default of `lavalink.host`.
pub fn voice_host() -> (s: String)
    ensures
        s@ == "127.0.0.1"@,
{
    String::from_str("127.0.0.1")
}

/// The default of `lavalink.port`.
pub fn voice_port() -> (p: u16)
    ensures
        p == 8080,
{
    8080u16
}

/// The verbosity that logging is set to.
#[derive(Debug, Clone, Copy, PartialEq, Eq, Structural)]
pub enum LogLevel {
    Error,
    Warn,
    Info,
    Debug,
    Trace,
}

/// The level that a configured level name selects: the five names in lower
/// case, and `Info` for any other text.
pub open spec fn level_named(name: Seq<char>) -> LogLevel {
    if name == "error"@ {
        LogLevel::Error
    } else if name == "warn"@ {
        LogLevel::Warn
    } else if name == "info"@ {
        LogLevel::Info
    } else if name == "debug"@ {
        LogLevel::Debug
    } else if name == "trace"@ {
        LogLevel::Trace
    } else {
        LogLevel::Info
    }
}

impl LogLevel {
    /// The level that `tracing.tracing_level` names.
    pub fn from_name(name: &str) -> (l: LogLevel)
        ensures
            l == level_named(name@),
    {
        if str_eq(name, "error") {
            LogLevel::Error
        } else if str_eq(name, "warn") {
            LogLevel::Warn
        } else if str_eq(name, "info") {
            LogLevel::Info
        } else if str_eq(name, "debug") {
            LogLevel::Debug
        } else if str_eq(name, "trace") {
            LogLevel::Trace
        } else {
            LogLevel::Info
        }
    }
}

/// Each of the five level names selects its own level.
pub proof fn lemma_level_names()
    ensures
        level_named("error"@) == LogLevel::Error,
        level_named("warn"@) == LogLevel::Warn,
        level_named("info"@) == LogLevel::Info,
        level_named("debug"@) == LogLevel::Debug,
        level_named("trace"@) == LogLevel::Trace,
{
    reveal_strlit("error");
    reveal_strlit("warn");
    reveal_strlit("info");
    reveal_strlit("debug");
    reveal_strlit("trace");
    assert("warn"@.len() != "error"@.len());
    assert("info"@.len() != "error"@.len());
    assert("info"@[0] != "warn"@[0]);
    assert("debug"@[0] != "error"@[0]);
    assert("debug"@.len() != "warn"@.len());
    assert("debug"@.len() != "info"@.len());
    assert("trace"@[0] != "error"@[0]);
    assert("trace"@.len() != "warn"@.len());
    assert("trace"@.len() != "info"@.len());
    assert("trace"@[0] != "debug"@[0]);
}

/// With no `[tracing]` table, logging is on and runs at `Info`.
pub proof fn lemma_default_tracing_is_info(c: TracingConfig)
    requires
        c.enabled,
        c.tracing_level@ == "info"@,
    ensures
        level_named(c.tracing_level@) == LogLevel::Info,
{
    lemma_level_names();
}

} // verus!
