//! How the database connection is set up from the configuration: the
//! options that the driver is handed, and what follows each step.

use vstd::prelude::*;
use crate::config::DatabaseConfig;
use crate::error::Error;

verus! {

/// `sea_orm::ConnectOptions`, the driver's options for one pool. What the
/// library knows of a value is what the four names below say of it.
#[verifier::external_type_specification]
#[verifier::external_body]
pub struct ExConnectOptions(sea_orm::ConnectOptions);

/// The levels at which the driver can log a slow statement.
#[derive(Debug, Clone, Copy)]
pub enum LogLevel {
    Off,
    Error,
    Warn,
    Info,
    Debug,
    Trace,
}

/// The connection string held by the options.
pub uninterp spec fn options_url(o: sea_orm::ConnectOptions) -> Seq<char>;

/// The largest pool size held by the options; `None` where none was set and
/// the driver keeps its own.
pub uninterp spec fn options_max_connections(o: sea_orm::ConnectOptions) -> Option<u32>;

/// The smallest pool size held by the options; `None` where none was set and
/// the driver keeps its own.
pub uninterp spec fn options_min_connections(o: sea_orm::ConnectOptions) -> Option<u32>;

/// The level at which slow statements are logged, and the threshold in
/// microseconds from which a statement counts as slow.
pub uninterp spec fn options_slow_statements(o: sea_orm::ConnectOptions) -> (LogLevel, nat);

/// What the library reads of the driver's options.
pub struct Options {
    pub url: Seq<char>,
    pub max_connections: Option<u32>,
    pub min_connections: Option<u32>,
    pub slow_statements: (LogLevel, nat),
}

/// The options as the library reads them.
pub open spec fn options_of(o: sea_orm::ConnectOptions) -> Options {
    Options {
        url: options_url(o),
        max_connections: options_max_connections(o),
        min_connections: options_min_connections(o),
        slow_statements: options_slow_statements(o),
    }
}

impl Options {
    /// The options that the driver makes from a connection string alone:
    /// no pool size, and slow statements not logged, with a threshold of one
    /// second.
    pub open spec fn fresh(url: Seq<char>) -> Options {
        Options {
            url,
            max_connections: None,
            min_connections: None,
            slow_statements: (LogLevel::Off, 1_000_000),
        }
    }

    /// The options with the largest pool size set.
    pub open spec fn with_max_connections(self, value: u32) -> Options {
        Options { max_connections: Some(value), ..self }
    }

    /// The options with the smallest pool size set.
    pub open spec fn with_min_connections(self, value: u32) -> Options {
        Options { min_connections: Some(value), ..self }
    }

    /// The options with slow statements logged at a level, from a threshold
    /// in microseconds on.
    pub open spec fn with_slow_statements(self, level: LogLevel, micros: nat) -> Options {
        Options { slow_statements: (level, micros), ..self }
    }

    /// The largest pool size applied where there is one.
    pub open spec fn tuned_max(self, value: Option<u32>) -> Options {
        match value {
            Some(c) => self.with_max_connections(c),
            None => self,
        }
    }

    /// The smallest pool size applied where there is one.
    pub open spec fn tuned_min(self, value: Option<u32>) -> Options {
        match value {
            Some(c) => self.with_min_connections(c),
            None => self,
        }
    }

    /// The threshold for slow statements applied where there is one: they
    /// are then logged as warnings.
    pub open spec fn tuned_slow(self, micros: Option<u64>) -> Options {
        match micros {
            Some(m) => self.with_slow_statements(LogLevel::Warn, m as nat),
            None => self,
        }
    }

    /// The options that a configuration asks for: those that the driver
    /// makes from the connection string, with each tuning value applied
    /// that is present. An absent one leaves what the driver chose.
    pub open spec fn planned(config: DatabaseConfig) -> Options {
        Options::fresh(config.dsn@).tuned_slow(
            config.slow_statements_logging_threshold,
        ).tuned_max(config.max_connections).tuned_min(config.min_connections)
    }
}

/// `sea_orm::ConnectOptions::new`: the options hold the given connection
/// string, no pool size, and the slow-statement level `Off` with a threshold
/// of one second.
#[verifier::external_body]
fn new_options(url: &str) -> (r: sea_orm::ConnectOptions)
    ensures
        options_url(r) == url@,
        options_max_connections(r) == None::<u32>,
        options_min_connections(r) == None::<u32>,
        options_slow_statements(r) == (LogLevel::Off, 1_000_000nat),
{
    sea_orm::ConnectOptions::new(url)
}

/// `sea_orm::ConnectOptions::max_connections`: sets the largest pool size
/// and nothing else.
#[verifier::external_body]
fn set_max_connections(o: &mut sea_orm::ConnectOptions, value: u32)
    ensures
        options_max_connections(*final(o)) == Some(value),
        options_url(*final(o)) == options_url(*old(o)),
        options_min_connections(*final(o)) == options_min_connections(*old(o)),
        options_slow_statements(*final(o)) == options_slow_statements(*old(o)),
{
    o.max_connections(value);
}

/// `sea_orm::ConnectOptions::min_connections`: sets the smallest pool size
/// and nothing else.
#[verifier::external_body]
fn set_min_connections(o: &mut sea_orm::ConnectOptions, value: u32)
    ensures
        options_min_connections(*final(o)) == Some(value),
        options_url(*final(o)) == options_url(*old(o)),
        options_max_connections(*final(o)) == options_max_connections(*old(o)),
        options_slow_statements(*final(o)) == options_slow_statements(*old(o)),
{
    o.min_connections(value);
}

/// `sea_orm::ConnectOptions::sqlx_slow_statements_logging_settings`, with
/// the threshold made by `std::time::Duration::from_micros`: sets the level
/// and the threshold for slow statements and nothing else.
#[verifier::external_body]
fn set_slow_statements(o: &mut sea_orm::ConnectOptions, level: LogLevel, micros: u64)
    ensures
        options_slow_statements(*final(o)) == (level, micros as nat),
        options_url(*final(o)) == options_url(*old(o)),
        options_max_connections(*final(o)) == options_max_connections(*old(o)),
        options_min_connections(*final(o)) == options_min_connections(*old(o)),
{
    let filter = match level {
        LogLevel::Off => log::LevelFilter::Off,
        LogLevel::Error => log::LevelFilter::Error,
        LogLevel::Warn => log::LevelFilter::Warn,
        LogLevel::Info => log::LevelFilter::Info,
        LogLevel::Debug => log::LevelFilter::Debug,
        LogLevel::Trace => log::LevelFilter::Trace,
    };
    o.sqlx_slow_statements_logging_settings(filter, std::time::Duration::from_micros(micros));
}

/// The options with which the driver is asked for a connection. They are
/// made from the connection string; then each tuning value that the
/// configuration holds is applied. A slow-statement threshold is applied
/// with the level `Warn`. A value that is absent is not touched: the pool
/// then has the driver's own.
pub fn connect_options(config: &DatabaseConfig) -> (r: sea_orm::ConnectOptions)
    ensures
        options_of(r) == Options::planned(*config),
        options_url(r) == config.dsn@,
        options_max_connections(r) == config.max_connections,
        options_min_connections(r) == config.min_connections,
        options_slow_statements(r) == match config.slow_statements_logging_threshold {
            Some(micros) => (LogLevel::Warn, micros as nat),
            None => Options::fresh(config.dsn@).slow_statements,
        },
{
    let mut options = new_options(config.dsn.as_str());
    match config.slow_statements_logging_threshold {
        Some(micros) => {
            set_slow_statements(&mut options, LogLevel::Warn, micros);
        },
        None => {},
    }
    match config.max_connections {
        Some(c) => {
            set_max_connections(&mut options, c);
        },
        None => {},
    }
    match config.min_connections {
        Some(c) => {
            set_min_connections(&mut options, c);
        },
        None => {},
    }
    options
}

/// The tuning values touch different options, so the order in which they
/// are applied does not matter.
pub proof fn lemma_tuning_order_is_irrelevant(
    o: Options,
    slow: Option<u64>,
    max: Option<u32>,
    min: Option<u32>,
)
    ensures
        o.tuned_slow(slow).tuned_max(max).tuned_min(min) == o.tuned_slow(slow).tuned_min(
            min,
        ).tuned_max(max),
        o.tuned_slow(slow).tuned_max(max).tuned_min(min) == o.tuned_max(max).tuned_slow(
            slow,
        ).tuned_min(min),
        o.tuned_slow(slow).tuned_max(max).tuned_min(min) == o.tuned_max(max).tuned_min(
            min,
        ).tuned_slow(slow),
        o.tuned_slow(slow).tuned_max(max).tuned_min(min) == o.tuned_min(min).tuned_slow(
            slow,
        ).tuned_max(max),
        o.tuned_slow(slow).tuned_max(max).tuned_min(min) == o.tuned_min(min).tuned_max(
            max,
        ).tuned_slow(slow),
{
}

/// A pool size that the configuration does not hold is not set: the pool
/// has the driver's own, as with options made from the connection string
/// alone.
pub proof fn lemma_absent_pool_size_is_the_drivers(config: DatabaseConfig)
    ensures
        config.max_connections is None ==> Options::planned(config).max_connections
            == Options::fresh(config.dsn@).max_connections,
        config.max_connections is None ==> Options::planned(config).max_connections is None,
        config.min_connections is None ==> Options::planned(config).min_connections
            == Options::fresh(config.dsn@).min_connections,
        config.slow_statements_logging_threshold is None ==> Options::planned(
            config,
        ).slow_statements == Options::fresh(config.dsn@).slow_statements,
{
}

/// A piece of outside work that the setup waits for.
#[derive(Debug, Clone, Copy)]
pub enum SetupWork {
    /// Opening the connection pool.
    Connect,
    /// Applying every pending schema migration.
    Migrate,
}

/// What the setup does next.
#[derive(Debug)]
pub enum SetupNext {
    /// Do this work, and come back with its outcome.
    Run(SetupWork),
    /// The connection is ready to be used.
    Ready,
    /// The setup has failed: the service must not start.
    Abort(Error),
}

/// What follows a piece of work that has ended. A failure ends the setup
/// with a database error that carries it. After the connection, migrations
/// are run where the flag asks for them and at no other time; after them,
/// or without them, the connection is ready.
pub open spec fn next_step(
    migrate: bool,
    finished: SetupWork,
    outcome: Result<(), sea_orm::DbErr>,
) -> SetupNext {
    match outcome {
        Err(e) => SetupNext::Abort(Error::Db(e)),
        Ok(_) => match finished {
            SetupWork::Connect => if migrate {
                SetupNext::Run(SetupWork::Migrate)
            } else {
                SetupNext::Ready
            },
            SetupWork::Migrate => SetupNext::Ready,
        },
    }
}

/// How a whole setup ends, given how the connection would go and how the
/// migrations would go if they were run.
pub open spec fn setup_result(
    migrate: bool,
    connection: Result<(), sea_orm::DbErr>,
    migration: Result<(), sea_orm::DbErr>,
) -> Result<(), Error> {
    match next_step(migrate, SetupWork::Connect, connection) {
        SetupNext::Abort(e) => Err(e),
        SetupNext::Ready => Ok(()),
        SetupNext::Run(work) => match next_step(migrate, work, migration) {
            SetupNext::Abort(e) => Err(e),
            _ => Ok(()),
        },
    }
}

/// The first piece of work of every setup: to connect.
pub fn first_step() -> (r: SetupWork)
    ensures
        r == SetupWork::Connect,
{
    SetupWork::Connect
}

/// Decides what follows the piece of work `finished`, which ended with
/// `outcome`.
pub fn setup_step(config: &DatabaseConfig, finished: SetupWork, outcome: Result<
    (),
    sea_orm::DbErr,
>) -> (r: SetupNext)
    ensures
        r == next_step(config.migrate, finished, outcome),
{
    match outcome {
        Err(e) => SetupNext::Abort(Error::Db(e)),
        Ok(_) => match finished {
            SetupWork::Connect => {
                if config.migrate {
                    SetupNext::Run(SetupWork::Migrate)
                } else {
                    SetupNext::Ready
                }
            },
            SetupWork::Migrate => SetupNext::Ready,
        },
    }
}

/// With the flag set, a migration that fails ends the setup with a database
/// error, the one that the migration gave.
pub proof fn lemma_failed_migration_aborts(e: sea_orm::DbErr)
    ensures
        next_step(true, SetupWork::Migrate, Err(e)) == SetupNext::Abort(Error::Db(e)),
        setup_result(true, Ok(()), Err(e)) == Err::<(), Error>(Error::Db(e)),
{
}

/// Without the flag no migration is ever asked for, and how the setup ends
/// does not depend on how a migration would go.
pub proof fn lemma_no_migration_without_flag(
    finished: SetupWork,
    outcome: Result<(), sea_orm::DbErr>,
    connection: Result<(), sea_orm::DbErr>,
    migration_a: Result<(), sea_orm::DbErr>,
    migration_b: Result<(), sea_orm::DbErr>,
)
    ensures
        !(next_step(false, finished, outcome) is Run),
        setup_result(false, connection, migration_a) == setup_result(
            false,
            connection,
            migration_b,
        ),
        connection is Ok ==> setup_result(false, connection, migration_a) is Ok,
{
}

/// Every failure of a setup is a database error.
pub proof fn lemma_setup_fails_with_database_error(
    migrate: bool,
    connection: Result<(), sea_orm::DbErr>,
    migration: Result<(), sea_orm::DbErr>,
)
    ensures
        setup_result(migrate, connection, migration) matches Err(e) ==> e is Db,
{
}

} // verus!
