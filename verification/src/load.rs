//! Loading, step by step.
//!
//! Finding and reading a file are the caller's work. What to do next, and what
//! to make of each answer, is decided here: [`Config::new`] gives the first
//! state, and [`Load::step`] the next one for each answer.

use vstd::prelude::*;
use vstd::std_specs::convert::FromSpec;
use crate::config::Config;
use crate::error::ConfigError;

verus! {

/// The directory of the application under the user's configuration
/// directories.
pub const APP_PREFIX: &'static str = "waylock";

/// The name of the configuration file in that directory.
pub const FILE_NAME: &'static str = "waylock.toml";

/// Where a load stands, and with it what the caller is to do next. `P` is the
/// caller's type of path: no path is ever looked into.
#[derive(Debug)]
pub enum Load<P> {
    /// No path was given. The caller looks for [`FILE_NAME`] under
    /// [`APP_PREFIX`] in the user's configuration directories and answers
    /// with [`Event::Located`].
    Locate,
    /// The caller reads the whole file at this path as text and answers with
    /// [`Event::Contents`].
    Read(P),
    /// The load has ended, with this result.
    Done(Result<Config, ConfigError>),
}

/// What the caller has found out.
#[derive(Debug)]
pub enum Event<P> {
    /// The outcome of the search: the path of the file, if there is one.
    Located(Option<P>),
    /// The outcome of the read: the text of the file, or why there is none.
    Contents(Result<String, std::io::Error>),
}

impl<P> Load<P> {
    /// The first state. A path that is given is the one to read, whatever
    /// becomes of it; without one, the file is looked for.
    pub open spec fn start(path_override: Option<P>) -> Load<P> {
        match path_override {
            Some(path) => Load::Read(path),
            None => Load::Locate,
        }
    }

    /// The result of a load whose file was read, or was not.
    pub open spec fn finish(contents: Result<String, std::io::Error>) -> Result<
        Config,
        ConfigError,
    > {
        match contents {
            Ok(text) => match Config::read(text@) {
                Ok(config) => Ok(config),
                Err(err) => Err(ConfigError::Toml(err)),
            },
            Err(err) => Err(ConfigError::from_spec(err)),
        }
    }

    /// The state after an event. A search that finds a file leads to reading
    /// it, and one that finds none ends the load with `NotFound`, before
    /// anything is read. A read ends the load with what [`Load::finish`]
    /// makes of it. An event that answers no question of the state leaves
    /// the state as it is.
    pub open spec fn next(self, event: Event<P>) -> Load<P> {
        match (self, event) {
            (Load::Locate, Event::Located(Some(path))) => Load::Read(path),
            (Load::Locate, Event::Located(None)) => Load::Done(Err(ConfigError::NotFound)),
            (Load::Read(_), Event::Contents(contents)) => Load::Done(Self::finish(contents)),
            (state, _) => state,
        }
    }

    /// Takes the load one step further.
    pub fn step(self, event: Event<P>) -> (next: Load<P>)
        ensures
            next == self.next(event),
    {
        match (self, event) {
            (Load::Locate, Event::Located(Some(path))) => Load::Read(path),
            (Load::Locate, Event::Located(None)) => Load::Done(Err(ConfigError::NotFound)),
            (Load::Read(_), Event::Contents(Ok(text))) => match Config::parse(text.as_str()) {
                Ok(config) => Load::Done(Ok(config)),
                Err(err) => Load::Done(Err(ConfigError::Toml(err))),
            },
            (Load::Read(_), Event::Contents(Err(err))) => Load::Done(
                Err(ConfigError::from(err)),
            ),
            (state, _) => state,
        }
    }
}

impl Config {
    /// Begins to load the configuration, from the file at `path_override` if
    /// there is one and from the conventional place if not.
    pub fn new<P>(path_override: Option<P>) -> (load: Load<P>)
        ensures
            load == Load::start(path_override),
    {
        match path_override {
            Some(path) => Load::Read(path),
            None => Load::Locate,
        }
    }
}

} // verus!
