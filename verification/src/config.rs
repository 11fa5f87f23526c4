//! The typed configuration, and how it is made from its two sources: a file
//! in TOML and the variables of the environment.

use vstd::prelude::*;
use crate::error::Error;

verus! {

/// How the database is reached and tuned.
#[derive(Debug, Clone)]
pub struct DatabaseConfig {
    /// The connection string.
    pub dsn: String,
    /// Statements slower than this many microseconds are logged.
    pub slow_statements_logging_threshold: Option<u64>,
    /// The largest size of the pool; the driver's own where absent.
    pub max_connections: Option<u32>,
    /// The smallest size of the pool; the driver's own where absent.
    pub min_connections: Option<u32>,
    /// Whether pending schema migrations are applied at start.
    pub migrate: bool,
}

/// The configuration of the service.
#[derive(Debug, Clone)]
pub struct BackendConfig {
    /// The address that the listener binds to.
    pub addr: String,
    pub database: DatabaseConfig,
}

/// The name of the configuration file, in the working directory.
pub const CONFIG_FILE: &'static str = "config.toml";

/// The prefix of the environment variables that override the file.
pub const ENV_PREFIX: &'static str = "BACKEND";

/// What stands between the prefix and a key, and between the parts of a
/// nested key, in the name of an environment variable.
pub const ENV_SEPARATOR: &'static str = "_";

/// `config::Config`: the keys and values that the sources hold, merged.
/// What the library knows of a value is what the lookups in it give.
#[verifier::external_type_specification]
#[verifier::external_body]
pub struct ExSettings(config::Config);

/// Whether a `config::ConfigError` says that a key was not found in any
/// source.
pub uninterp spec fn is_missing(e: config::ConfigError) -> bool;

/// Tells the variant `NotFound` of `config::ConfigError` from the others.
#[verifier::external_body]
fn is_not_found(e: &config::ConfigError) -> (r: bool)
    ensures
        r == is_missing(*e),
{
    match e {
        config::ConfigError::NotFound(_) => true,
        _ => false,
    }
}

/// `config::ConfigBuilder::build`, on a builder with two sources added in
/// this order: `config::File::from_str` of the text, as TOML, and
/// `config::Environment` with the prefix, the separator and the variables
/// given. Nothing is claimed of the outcome.
#[verifier::external_body]
fn merged_sources(file: &str, prefix: &str, separator: &str, env: Vec<(String, String)>) -> (r:
    Result<config::Config, config::ConfigError>) {
    let vars: config::Map<String, String> = env.into_iter().collect();
    config::Config::builder()
        .add_source(config::File::from_str(file, config::FileFormat::Toml))
        .add_source(config::Environment::with_prefix(prefix).separator(separator).source(Some(vars)))
        .build()
}

/// What `config::Config::get_string` gives for a key.
pub uninterp spec fn settings_string(settings: config::Config, key: Seq<char>) -> Result<
    String,
    config::ConfigError,
>;

/// What `config::Config::get_bool` gives for a key.
pub uninterp spec fn settings_bool(settings: config::Config, key: Seq<char>) -> Result<
    bool,
    config::ConfigError,
>;

/// What `config::Config::get` gives for a key that is read as a `u64`.
pub uninterp spec fn settings_u64(settings: config::Config, key: Seq<char>) -> Result<
    u64,
    config::ConfigError,
>;

/// What `config::Config::get` gives for a key that is read as a `u32`.
pub uninterp spec fn settings_u32(settings: config::Config, key: Seq<char>) -> Result<
    u32,
    config::ConfigError,
>;

/// What `config::Config::get_table` gives for a key, the table taken by the
/// number of its keys.
pub uninterp spec fn settings_table(settings: config::Config, key: Seq<char>) -> Result<
    usize,
    config::ConfigError,
>;

/// `config::Config::get_string`: the value under the key as a string, or
/// the parser's failure. The outcome depends on the settings and the key
/// alone.
#[verifier::external_body]
fn lookup_string(settings: &config::Config, key: &str) -> (r: Result<String, config::ConfigError>)
    ensures
        r == settings_string(*settings, key@),
{
    settings.get_string(key)
}

/// `config::Config::get_bool`: the value under the key as a truth value, or
/// the parser's failure. The outcome depends on the settings and the key
/// alone.
#[verifier::external_body]
fn lookup_bool(settings: &config::Config, key: &str) -> (r: Result<bool, config::ConfigError>)
    ensures
        r == settings_bool(*settings, key@),
{
    settings.get_bool(key)
}

/// `config::Config::get`, for a `u64`: the value under the key, or the
/// parser's failure. The outcome depends on the settings and the key alone.
#[verifier::external_body]
fn lookup_u64(settings: &config::Config, key: &str) -> (r: Result<u64, config::ConfigError>)
    ensures
        r == settings_u64(*settings, key@),
{
    settings.get::<u64>(key)
}

/// `config::Config::get`, for a `u32`: the value under the key, or the
/// parser's failure. The outcome depends on the settings and the key alone.
#[verifier::external_body]
fn lookup_u32(settings: &config::Config, key: &str) -> (r: Result<u32, config::ConfigError>)
    ensures
        r == settings_u32(*settings, key@),
{
    settings.get::<u32>(key)
}

/// `config::Config::get_table`: the table under the key, given out as the
/// number of its keys, or the parser's failure. The outcome depends on the
/// settings and the key alone.
#[verifier::external_body]
fn lookup_table(settings: &config::Config, key: &str) -> (r: Result<usize, config::ConfigError>)
    ensures
        r == settings_table(*settings, key@),
{
    match settings.get_table(key) {
        Ok(table) => Ok(table.len()),
        Err(e) => Err(e),
    }
}

/// What looking up each key of the configuration gave.
#[derive(Debug)]
pub struct Lookups {
    pub addr: Result<String, config::ConfigError>,
    /// The number of keys below `database`.
    pub database: Result<usize, config::ConfigError>,
    pub dsn: Result<String, config::ConfigError>,
    pub slow_statements_logging_threshold: Result<u64, config::ConfigError>,
    pub max_connections: Result<u32, config::ConfigError>,
    pub min_connections: Result<u32, config::ConfigError>,
    pub migrate: Result<bool, config::ConfigError>,
}

/// The failure of a lookup whose key is there with a value that cannot be
/// read.
pub open spec fn malformed<V>(found: Result<V, config::ConfigError>) -> Option<
    config::ConfigError,
> {
    match found {
        Ok(_) => None,
        Err(e) => if is_missing(e) {
            None
        } else {
            Some(e)
        },
    }
}

/// The failure of a lookup whose key is in no source.
pub open spec fn absent<V>(found: Result<V, config::ConfigError>) -> Option<config::ConfigError> {
    match found {
        Ok(_) => None,
        Err(e) => if is_missing(e) {
            Some(e)
        } else {
            None
        },
    }
}

/// The value of a key that may be absent.
pub open spec fn optional<V>(found: Result<V, config::ConfigError>) -> Option<V> {
    match found {
        Ok(v) => Some(v),
        Err(_) => None,
    }
}

/// The first of two failures.
pub open spec fn first(a: Option<config::ConfigError>, b: Option<config::ConfigError>) -> Option<
    config::ConfigError,
> {
    if a is Some {
        a
    } else {
        b
    }
}

impl Lookups {
    /// What looking up each key in the merged settings gives.
    pub open spec fn of(settings: config::Config) -> Lookups {
        Lookups {
            addr: settings_string(settings, "addr"@),
            database: settings_table(settings, "database"@),
            dsn: settings_string(settings, "database.dsn"@),
            slow_statements_logging_threshold: settings_u64(
                settings,
                "database.slow_statements_logging_threshold"@,
            ),
            max_connections: settings_u32(settings, "database.max_connections"@),
            min_connections: settings_u32(settings, "database.min_connections"@),
            migrate: settings_bool(settings, "database.migrate"@),
        }
    }

    /// The first value that cannot be read, if there is one: the address,
    /// the table `database`, then its keys as they are declared.
    pub open spec fn first_malformed(self) -> Option<config::ConfigError> {
        first(
            malformed(self.addr),
            first(
                malformed(self.database),
                first(
                    malformed(self.dsn),
                    first(
                        malformed(self.slow_statements_logging_threshold),
                        first(
                            malformed(self.max_connections),
                            first(malformed(self.min_connections), malformed(self.migrate)),
                        ),
                    ),
                ),
            ),
        )
    }

    /// The first mandatory key that is absent, if there is one. Where there
    /// is a table `database`, its keys come first; then the address; then
    /// the table itself.
    pub open spec fn first_absent(self) -> Option<config::ConfigError> {
        first(
            if self.database is Ok {
                first(absent(self.dsn), absent(self.migrate))
            } else {
                None
            },
            first(absent(self.addr), absent(self.database)),
        )
    }

    /// The failure that the configuration is refused with, if it is: a
    /// value that cannot be read comes before a key that is absent.
    pub open spec fn failure(self) -> Option<config::ConfigError> {
        first(self.first_malformed(), self.first_absent())
    }

    /// What the outcome of merging the sources comes to: where the merge
    /// failed, a configuration failure with that failure; else what the
    /// lookups in the merged settings come to.
    pub open spec fn loaded(merged: Result<config::Config, config::ConfigError>) -> Result<
        BackendConfig,
        Error,
    > {
        match merged {
            Ok(settings) => Lookups::of(settings).outcome(),
            Err(e) => Err(Error::Conf(e)),
        }
    }

    /// What the lookups come to: the configuration, or a configuration
    /// failure with the failure of the lookup that it is refused for.
    pub open spec fn outcome(self) -> Result<BackendConfig, Error> {
        match self.failure() {
            Some(e) => Err(Error::Conf(e)),
            None => Ok(self.config()),
        }
    }

    /// The configuration that the lookups stand for, where none fails.
    pub open spec fn config(self) -> BackendConfig
        recommends
            self.failure() is None,
    {
        BackendConfig {
            addr: self.addr->Ok_0,
            database: DatabaseConfig {
                dsn: self.dsn->Ok_0,
                slow_statements_logging_threshold: optional(self.slow_statements_logging_threshold),
                max_connections: optional(self.max_connections),
                min_connections: optional(self.min_connections),
                migrate: self.migrate->Ok_0,
            },
        }
    }
}

/// What a lookup found: the value, or that the key is in no source, with
/// the failure that says so.
enum Setting<V> {
    Present(V),
    Absent(config::ConfigError),
}

impl<V> Setting<V> {
    fn into_option(self) -> (r: Option<V>)
        ensures
            r == match self {
                Setting::Present(v) => Some(v),
                Setting::Absent(_) => None,
            },
    {
        match self {
            Setting::Present(v) => Some(v),
            Setting::Absent(_) => None,
        }
    }
}

fn sort_out<V>(found: Result<V, config::ConfigError>) -> (r: Result<Setting<V>, config::ConfigError>)
    ensures
        match found {
            Ok(v) => r == Ok::<Setting<V>, config::ConfigError>(Setting::Present(v)),
            Err(e) => if is_missing(e) {
                r == Ok::<Setting<V>, config::ConfigError>(Setting::Absent(e))
            } else {
                r == Err::<Setting<V>, config::ConfigError>(e)
            },
        },
{
    match found {
        Ok(v) => Ok(Setting::Present(v)),
        Err(e) => {
            if is_not_found(&e) {
                Ok(Setting::Absent(e))
            } else {
                Err(e)
            }
        },
    }
}

impl BackendConfig {
    /// The configuration from the text of the file and the variables of the
    /// environment. The sources are merged key by key, and a variable under
    /// the prefix overrides the file; the merge is the parser's. A failure
    /// is always a configuration failure, and carries what the parser said.
    pub fn new(file: &str, env: Vec<(String, String)>) -> (r: Result<BackendConfig, Error>)
        ensures
            exists|merged: Result<config::Config, config::ConfigError>|
                r == #[trigger] Lookups::loaded(merged),
            r matches Err(e) ==> e is Conf,
    {
        BackendConfig::from_merged(merged_sources(file, ENV_PREFIX, ENV_SEPARATOR, env))
    }

    /// The configuration from the outcome of merging the sources.
    pub fn from_merged(merged: Result<config::Config, config::ConfigError>) -> (r: Result<
        BackendConfig,
        Error,
    >)
        ensures
            r == Lookups::loaded(merged),
            r matches Err(e) ==> e is Conf,
    {
        match merged {
            Ok(settings) => BackendConfig::from_settings(&settings),
            Err(e) => Err(Error::Conf(e)),
        }
    }

    /// The configuration that merged sources hold: each key is looked up,
    /// and the outcomes are put together by `from_lookups`.
    pub fn from_settings(settings: &config::Config) -> (r: Result<BackendConfig, Error>)
        ensures
            r == Lookups::of(*settings).outcome(),
            r matches Err(e) ==> e is Conf,
    {
        let found = Lookups {
            addr: lookup_string(settings, "addr"),
            database: lookup_table(settings, "database"),
            dsn: lookup_string(settings, "database.dsn"),
            slow_statements_logging_threshold: lookup_u64(
                settings,
                "database.slow_statements_logging_threshold",
            ),
            max_connections: lookup_u32(settings, "database.max_connections"),
            min_connections: lookup_u32(settings, "database.min_connections"),
            migrate: lookup_bool(settings, "database.migrate"),
        };
        BackendConfig::from_lookups(found)
    }

    /// Puts the configuration together from what the lookups gave. The
    /// address, the connection string and the migration flag must be
    /// there; the tuning values may be absent. Where a lookup fails that
    /// must not, the result is a configuration failure with the failure of
    /// that lookup, unchanged.
    pub fn from_lookups(found: Lookups) -> (r: Result<BackendConfig, Error>)
        ensures
            r == found.outcome(),
            r matches Err(e) ==> e is Conf,
    {
        let addr = match sort_out(found.addr) {
            Ok(s) => s,
            Err(e) => {
                return Err(Error::Conf(e));
            },
        };
        let database = match sort_out(found.database) {
            Ok(s) => s,
            Err(e) => {
                return Err(Error::Conf(e));
            },
        };
        let dsn = match sort_out(found.dsn) {
            Ok(s) => s,
            Err(e) => {
                return Err(Error::Conf(e));
            },
        };
        let slow = match sort_out(found.slow_statements_logging_threshold) {
            Ok(s) => s,
            Err(e) => {
                return Err(Error::Conf(e));
            },
        };
        let max = match sort_out(found.max_connections) {
            Ok(s) => s,
            Err(e) => {
                return Err(Error::Conf(e));
            },
        };
        let min = match sort_out(found.min_connections) {
            Ok(s) => s,
            Err(e) => {
                return Err(Error::Conf(e));
            },
        };
        let migrate = match sort_out(found.migrate) {
            Ok(s) => s,
            Err(e) => {
                return Err(Error::Conf(e));
            },
        };
        match database {
            Setting::Present(_) => {
                let dsn = match dsn {
                    Setting::Present(v) => v,
                    Setting::Absent(e) => {
                        return Err(Error::Conf(e));
                    },
                };
                let migrate = match migrate {
                    Setting::Present(v) => v,
                    Setting::Absent(e) => {
                        return Err(Error::Conf(e));
                    },
                };
                let addr = match addr {
                    Setting::Present(v) => v,
                    Setting::Absent(e) => {
                        return Err(Error::Conf(e));
                    },
                };
                Ok(
                    BackendConfig {
                        addr,
                        database: DatabaseConfig {
                            dsn,
                            slow_statements_logging_threshold: slow.into_option(),
                            max_connections: max.into_option(),
                            min_connections: min.into_option(),
                            migrate,
                        },
                    },
                )
            },
            Setting::Absent(e) => {
                match addr {
                    Setting::Present(_) => Err(Error::Conf(e)),
                    Setting::Absent(a) => Err(Error::Conf(a)),
                }
            },
        }
    }
}

/// A tuning value whose key is in no source is absent from the
/// configuration: nothing stands in for it.
pub proof fn lemma_absent_tuning_value_stays_absent(found: Lookups)
    requires
        found.failure() is None,
    ensures
        absent(found.max_connections) is Some ==> found.config().database.max_connections is None,
        absent(found.min_connections) is Some ==> found.config().database.min_connections is None,
        absent(found.slow_statements_logging_threshold) is Some
            ==> found.config().database.slow_statements_logging_threshold is None,
{
}

/// A configuration is made exactly where the address, the table
/// `database`, the connection string and the migration flag were found and
/// no tuning value is there with a value that cannot be read.
pub proof fn lemma_configuration_is_made_iff_complete(found: Lookups)
    ensures
        found.failure() is None <==> {
            &&& found.addr is Ok
            &&& found.database is Ok
            &&& found.dsn is Ok
            &&& found.migrate is Ok
            &&& malformed(found.slow_statements_logging_threshold) is None
            &&& malformed(found.max_connections) is None
            &&& malformed(found.min_connections) is None
        },
{
}

} // verus!
