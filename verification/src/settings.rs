//! Application settings: their defaults and how the environment overrides them.
//!
//! Reading the settings file and the environment is left to the caller; this
//! module decides what the settings are from what was read.
use vstd::prelude::*;
use vstd::string::StringExecFns;

use crate::dup::opt_view;
use crate::text::{parse_u64, parse_unsigned};

verus! {

/// Where the database lives and how connections to it behave.
#[derive(Debug, Clone)]
pub struct DatabaseConfig {
    pub path: String,
    pub busy_timeout_ms: u64,
    pub max_connections: u32,
}

/// Where and how much is logged.
#[derive(Debug, Clone)]
pub struct LoggingConfig {
    pub level: String,
    pub file: Option<String>,
    pub console: bool,
}

/// All settings of the application.
#[derive(Debug, Clone)]
pub struct Settings {
    pub database: DatabaseConfig,
    pub logging: LoggingConfig,
}

pub open spec fn is_default_database(c: DatabaseConfig) -> bool {
    &&& c.path@ == "prompt_lab/dev.db"@
    &&& c.busy_timeout_ms == 5000
    &&& c.max_connections == 5
}

pub open spec fn is_default_logging(c: LoggingConfig) -> bool {
    &&& c.level@ == "info"@
    &&& c.file is None
    &&& c.console
}

impl Default for DatabaseConfig {
    fn default() -> (r: Self)
        ensures
            is_default_database(r),
    {
        DatabaseConfig {
            path: String::from_str("prompt_lab/dev.db"),
            busy_timeout_ms: 5000,
            max_connections: 5,
        }
    }
}

impl Default for LoggingConfig {
    fn default() -> (r: Self)
        ensures
            is_default_logging(r),
    {
        LoggingConfig { level: String::from_str("info"), file: None, console: true }
    }
}

impl Default for Settings {
    fn default() -> (r: Self)
        ensures
            is_default_database(r.database),
            is_default_logging(r.logging),
            r@ == default_settings(),
    {
        Settings { database: DatabaseConfig::default(), logging: LoggingConfig::default() }
    }
}

/// The values of the environment variables that override settings, as read;
/// `None` where the variable is not set.
///
/// `db_path` is `ARGUSX_DB_PATH`, `db_timeout_ms` is `ARGUSX_DB_TIMEOUT_MS`,
/// `db_max_conns` is `ARGUSX_DB_MAX_CONNS`, `log_level` is `ARGUSX_LOG_LEVEL`,
/// `log_file` is `ARGUSX_LOG_FILE` and `log_console` is `ARGUSX_LOG_CONSOLE`.
#[derive(Debug, Clone, Default)]
pub struct EnvOverrides {
    pub db_path: Option<String>,
    pub db_timeout_ms: Option<String>,
    pub db_max_conns: Option<String>,
    pub log_level: Option<String>,
    pub log_file: Option<String>,
    pub log_console: Option<String>,
}

/// What `str::parse::<bool>` gives: `true` and `false` exactly, nothing else.
pub open spec fn parse_bool_spec(s: Seq<char>) -> Option<bool> {
    if s == "true"@ {
        Some(true)
    } else if s == "false"@ {
        Some(false)
    } else {
        None
    }
}

/// Parses `s` as `str::parse::<bool>` does.
pub fn parse_bool(s: &str) -> (r: Option<bool>)
    ensures
        r == parse_bool_spec(s@),
{
    proof {
        reveal_strlit("true");
        reveal_strlit("false");
    }
    let n = s.unicode_len();
    if n == 4 && s.get_char(0) == 't' && s.get_char(1) == 'r' && s.get_char(2) == 'u' && s.get_char(
        3,
    ) == 'e' {
        assert(s@ =~= "true"@);
        Some(true)
    } else if n == 5 && s.get_char(0) == 'f' && s.get_char(1) == 'a' && s.get_char(2) == 'l'
        && s.get_char(3) == 's' && s.get_char(4) == 'e' {
        assert(s@ =~= "false"@);
        Some(false)
    } else {
        assert(s@ == "true"@ ==> (n == 4 && s@[0] == 't' && s@[1] == 'r' && s@[2] == 'u' && s@[3]
            == 'e'));
        assert(s@ == "false"@ ==> (n == 5 && s@[0] == 'f' && s@[1] == 'a' && s@[2] == 'l' && s@[3]
            == 's' && s@[4] == 'e'));
        None
    }
}

/// Parses `s` as `str::parse::<u32>` does.
pub fn parse_u32(s: &str) -> (r: Option<u32>)
    ensures
        match r {
            Some(v) => parse_unsigned(s@, u32::MAX as nat) == Some(v as nat),
            None => parse_unsigned(s@, u32::MAX as nat) is None,
        },
{
    match parse_u64(s) {
        Some(v) => {
            if v <= 0xffff_ffffu64 {
                Some(v as u32)
            } else {
                None
            }
        },
        None => None,
    }
}

/// A number as read from the environment, or `fallback` where it does not parse.
pub open spec fn parsed_or(s: Seq<char>, max: nat, fallback: nat) -> nat {
    match parse_unsigned(s, max) {
        Some(v) => v,
        None => fallback,
    }
}

/// Settings as plain values.
pub struct SettingsView {
    pub db_path: Seq<char>,
    pub busy_timeout_ms: u64,
    pub max_connections: u32,
    pub log_level: Seq<char>,
    pub log_file: Option<Seq<char>>,
    pub console: bool,
}

impl View for Settings {
    type V = SettingsView;

    open spec fn view(&self) -> SettingsView {
        SettingsView {
            db_path: self.database.path@,
            busy_timeout_ms: self.database.busy_timeout_ms,
            max_connections: self.database.max_connections,
            log_level: self.logging.level@,
            log_file: opt_view(self.logging.file),
            console: self.logging.console,
        }
    }
}

/// The default settings.
pub open spec fn default_settings() -> SettingsView {
    SettingsView {
        db_path: "prompt_lab/dev.db"@,
        busy_timeout_ms: 5000,
        max_connections: 5,
        log_level: "info"@,
        log_file: None,
        console: true,
    }
}

/// The settings after the environment has overridden them: each variable that is
/// set replaces its setting; a number or flag that does not parse falls back to
/// its default (5000 ms, 5 connections, console on).
pub open spec fn overridden(s: SettingsView, env: EnvOverrides) -> SettingsView {
    SettingsView {
        db_path: match env.db_path {
            Some(p) => p@,
            None => s.db_path,
        },
        busy_timeout_ms: match env.db_timeout_ms {
            Some(t) => parsed_or(t@, u64::MAX as nat, 5000) as u64,
            None => s.busy_timeout_ms,
        },
        max_connections: match env.db_max_conns {
            Some(c) => parsed_or(c@, u32::MAX as nat, 5) as u32,
            None => s.max_connections,
        },
        log_level: match env.log_level {
            Some(l) => l@,
            None => s.log_level,
        },
        log_file: match env.log_file {
            Some(f) => Some(f@),
            None => s.log_file,
        },
        console: match env.log_console {
            Some(c) => match parse_bool_spec(c@) {
                Some(b) => b,
                None => true,
            },
            None => s.console,
        },
    }
}

/// The settings file that `load_default` reads.
pub fn default_config_path() -> (r: String)
    ensures
        r@ == "config/default.toml"@,
{
    String::from_str("config/default.toml")
}

impl Settings {
    /// Applies the environment's overrides to these settings.
    pub fn apply_env_overrides(&mut self, env: &EnvOverrides)
        ensures
            final(self)@ == overridden(old(self)@, *env),
    {
        match &env.db_path {
            Some(p) => self.database.path = p.clone(),
            None => {},
        }
        match &env.db_timeout_ms {
            Some(t) => {
                self.database.busy_timeout_ms = match parse_u64(t.as_str()) {
                    Some(v) => v,
                    None => 5000,
                };
            },
            None => {},
        }
        match &env.db_max_conns {
            Some(c) => {
                self.database.max_connections = match parse_u32(c.as_str()) {
                    Some(v) => v,
                    None => 5,
                };
            },
            None => {},
        }
        match &env.log_level {
            Some(l) => self.logging.level = l.clone(),
            None => {},
        }
        match &env.log_file {
            Some(f) => self.logging.file = Some(f.clone()),
            None => {},
        }
        match &env.log_console {
            Some(c) => {
                self.logging.console = match parse_bool(c.as_str()) {
                    Some(b) => b,
                    None => true,
                };
            },
            None => {},
        }
    }

    /// The settings from the settings file, as parsed, or the defaults where there
    /// is no such file; then the environment's overrides.
    pub fn load(file: Option<Settings>, env: &EnvOverrides) -> (r: Settings)
        ensures
            r@ == overridden(
                match file {
                    Some(f) => f@,
                    None => default_settings(),
                },
                *env,
            ),
    {
        let mut settings = match file {
            Some(f) => f,
            None => Settings::default(),
        };
        settings.apply_env_overrides(env);
        settings
    }

    /// `load` for the settings file at `default_config_path()`: `file` is what
    /// that file parsed to, if it exists.
    pub fn load_default(file: Option<Settings>, env: &EnvOverrides) -> (r: Settings)
        ensures
            r@ == overridden(
                match file {
                    Some(f) => f@,
                    None => default_settings(),
                },
                *env,
            ),
    {
        Self::load(file, env)
    }
}

/// No variable set: nothing overridden.
pub open spec fn no_overrides(env: EnvOverrides) -> bool {
    &&& env.db_path is None
    &&& env.db_timeout_ms is None
    &&& env.db_max_conns is None
    &&& env.log_level is None
    &&& env.log_file is None
    &&& env.log_console is None
}

/// Where the environment sets nothing, the settings are those of the file, or
/// the defaults where there is no file.
pub proof fn lemma_no_overrides_keep_settings(s: SettingsView, env: EnvOverrides)
    requires
        no_overrides(env),
    ensures
        overridden(s, env) == s,
{
}

/// Applying the same overrides twice changes nothing more than applying them once.
pub proof fn lemma_overrides_idempotent(s: SettingsView, env: EnvOverrides)
    ensures
        overridden(overridden(s, env), env) == overridden(s, env),
{
}

/// What the environment overrides: a set variable replaces the file's value
/// and an unset one leaves it. `ARGUSX_LOG_CONSOLE` set to `true` or `false`
/// turns console logging on or off whatever the file said, and set to anything
/// else turns it on.
pub proof fn lemma_env_overrides(s: SettingsView, env: EnvOverrides)
    ensures
        env.log_console is None ==> overridden(s, env).console == s.console,
        env.log_console matches Some(c) && c@ == "true"@ ==> overridden(s, env).console,
        env.log_console matches Some(c) && c@ == "false"@ ==> !overridden(s, env).console,
        env.log_console matches Some(c) && c@ != "true"@ && c@ != "false"@ ==> overridden(
            s,
            env,
        ).console,
        env.db_path matches Some(p) ==> overridden(s, env).db_path == p@,
        env.db_path is None ==> overridden(s, env).db_path == s.db_path,
        env.log_level matches Some(l) ==> overridden(s, env).log_level == l@,
        env.log_level is None ==> overridden(s, env).log_level == s.log_level,
        env.log_file matches Some(f) ==> overridden(s, env).log_file == Some(f@),
        env.log_file is None ==> overridden(s, env).log_file == s.log_file,
        env.db_timeout_ms is None ==> overridden(s, env).busy_timeout_ms == s.busy_timeout_ms,
        env.db_max_conns is None ==> overridden(s, env).max_connections == s.max_connections,
{
    reveal_strlit("true");
    reveal_strlit("false");
    assert("false"@ != "true"@) by {
        assert("false"@[0] != "true"@[0]);
    }
}

} // verus!
