//! The failures of the service, under one type.

use vstd::prelude::*;
use vstd::std_specs::convert::FromSpecImpl;

verus! {

/// `sea_orm::DbErr`, the database driver's error. Nothing is known of what
/// it holds.
#[verifier::external_type_specification]
#[verifier::external_body]
pub struct ExDbErr(sea_orm::DbErr);

/// `config::ConfigError`, the configuration parser's error. Nothing is known
/// of what it holds but whether it says that a key was not found.
#[verifier::external_type_specification]
#[verifier::external_body]
pub struct ExConfigError(config::ConfigError);

/// `std::io::Error`. Nothing is known of what it holds.
#[verifier::external_type_specification]
#[verifier::external_body]
pub struct ExIoError(std::io::Error);

/// Every failure the service can meet. The first three kinds carry the
/// failure of the layer below as it came; the last two are made by the
/// application itself, the second of them with the HTTP status that the
/// client is to be told.
#[derive(Debug)]
pub enum Error {
    /// The database driver failed.
    Db(sea_orm::DbErr),
    /// The configuration could not be read or is incomplete.
    Conf(config::ConfigError),
    /// Input or output failed.
    Io(std::io::Error),
    /// An application failure with a message only.
    Unknown(String),
    /// An application failure with a status and a message for the client.
    UnknownWithCode(u16, String),
}

impl Error {
    /// Whether the failure carries a status and message chosen for the
    /// client.
    pub open spec fn is_coded(self) -> bool {
        self is UnknownWithCode
    }

    /// Whether the failure came from the database driver.
    pub fn is_database(&self) -> (r: bool)
        ensures
            r == (*self is Db),
    {
        match self {
            Error::Db(_) => true,
            _ => false,
        }
    }
}

impl From<sea_orm::DbErr> for Error {
    fn from(value: sea_orm::DbErr) -> (r: Self) {
        Error::Db(value)
    }
}

impl FromSpecImpl<sea_orm::DbErr> for Error {
    open spec fn obeys_from_spec() -> bool {
        true
    }

    open spec fn from_spec(v: sea_orm::DbErr) -> Self {
        Error::Db(v)
    }
}

impl From<config::ConfigError> for Error {
    fn from(value: config::ConfigError) -> (r: Self) {
        Error::Conf(value)
    }
}

impl FromSpecImpl<config::ConfigError> for Error {
    open spec fn obeys_from_spec() -> bool {
        true
    }

    open spec fn from_spec(v: config::ConfigError) -> Self {
        Error::Conf(v)
    }
}

impl From<std::io::Error> for Error {
    fn from(value: std::io::Error) -> (r: Self) {
        Error::Io(value)
    }
}

impl FromSpecImpl<std::io::Error> for Error {
    open spec fn obeys_from_spec() -> bool {
        true
    }

    open spec fn from_spec(v: std::io::Error) -> Self {
        Error::Io(v)
    }
}

} // verus!
