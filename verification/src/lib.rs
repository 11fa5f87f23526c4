//! Building blocks of a small web backend: the response envelope and the
//! paginated list that its handlers return, the error taxonomy behind them,
//! the typed configuration, and the rules by which a database connection is
//! set up from that configuration.

pub mod config;
pub mod database;
pub mod error;
pub mod paging;
pub mod response;
