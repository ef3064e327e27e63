//! Locating and reading the configuration file of the waylock screen locker.
//!
//! The file is TOML. It holds one table, `colors`, with up to three colours:
//!
//! ```toml
//! [colors]
//! init_color = 0xff0000
//! input_color = 0x00ff00
//! fail_color = 0x0000ff
//! ```
//!
//! This crate touches neither the file system nor the environment. A load is
//! a short exchange: [`Config::new`] says what the caller is to do first, the
//! caller does it and reports with an [`Event`], and [`Load::step`] says what
//! comes next, until the load is [`Load::Done`]. A path that the caller gives
//! is read and nothing else; without one the file is looked for under the
//! user's configuration directories, and if there is none the load ends with
//! [`ConfigError::NotFound`] before anything is read.
//!
//! Every function of the crate is verified with Verus against its contract,
//! on the assumptions about the `toml` crate and about `std::io::Error` that
//! the modules [`document`] and [`error`] declare.

pub mod config;
pub mod document;
pub mod error;
pub mod laws;
pub mod load;

pub use config::{Colors, Config, Role};
pub use error::{ConfigError, TomlError};
pub use load::{Event, Load, APP_PREFIX, FILE_NAME};
