//! Why a configuration could not be loaded.

use vstd::prelude::*;
use vstd::string::*;
use crate::config::Role;

verus! {

/// `std::io::Error`: why a file could not be read. It is carried through
/// unread but for its kind.
#[verifier::external_type_specification]
#[verifier::external_body]
pub struct ExIoError(std::io::Error);

/// `std::io::ErrorKind`, declared with its variants in view: it has no
/// fields to hide, and telling `NotFound` from the other kinds is then a
/// `match` that Verus reads.
#[verifier::external_type_specification]
pub struct ExIoErrorKind(std::io::ErrorKind);

/// The kind that `std::io::Error::kind` reports of an error.
pub uninterp spec fn kind_of(err: std::io::Error) -> std::io::ErrorKind;

/// Assumed of `std::io::Error::kind`: the kind is a property of the error, so
/// that asking twice gives the same answer. Which kind an error has is left
/// open.
pub assume_specification[ std::io::Error::kind ](err: &std::io::Error) -> (kind:
    std::io::ErrorKind)
    ensures
        kind == kind_of(*err),
;

/// Why the text of a file gives no configuration.
#[derive(Debug, PartialEq, Eq)]
pub enum TomlError {
    /// The text is not TOML: the parser's own report.
    Syntax(toml::de::Error),
    /// The document has no entry `colors`.
    MissingColors,
    /// The entry `colors` is not a table.
    ColorsNotTable,
    /// The colour of this role is not an integer of 32 bits without sign.
    InvalidColor(Role),
}

/// Why no configuration was loaded.
#[derive(Debug)]
pub enum ConfigError {
    /// There is no file to read. The caller goes on with its defaults.
    NotFound,
    /// The file is there and could not be read.
    Io(std::io::Error),
    /// The file was read and its text gives no configuration.
    Toml(TomlError),
}

impl TomlError {
    /// Whether `text` is the message of this error. For a text that is not
    /// TOML it is what the parser's report displays.
    pub open spec fn is_message(self, text: String) -> bool {
        match self {
            TomlError::Syntax(err) => to_string_from_display_ensures::<toml::de::Error>(
                &err,
                text,
            ),
            TomlError::MissingColors => text@ == "missing field `colors`"@,
            TomlError::ColorsNotTable => text@ == "invalid type for `colors`: expected a table"@,
            TomlError::InvalidColor(role) => {
                text@ == "invalid value for `colors."@ + role.key()
                    + "`: expected an integer from 0 to 4294967295"@
            },
        }
    }

    /// The message of this error, for the user to read.
    pub fn message(&self) -> (text: String)
        ensures
            self.is_message(text),
    {
        match self {
            TomlError::Syntax(err) => err.to_string(),
            TomlError::MissingColors => "missing field `colors`".to_owned(),
            TomlError::ColorsNotTable => "invalid type for `colors`: expected a table".to_owned(),
            TomlError::InvalidColor(role) => {
                let mut text = "invalid value for `colors.".to_owned();
                text.append(role.name());
                text.append("`: expected an integer from 0 to 4294967295");
                text
            },
        }
    }
}

impl ConfigError {
    /// The error for a read that failed with a cause of the given kind:
    /// `NotFound` where the kind says that there is no such file, since a
    /// file that is not there is no fault, and `Io` with the cause for every
    /// other kind.
    pub open spec fn of_kind(kind: std::io::ErrorKind, cause: std::io::Error) -> ConfigError {
        if kind is NotFound {
            ConfigError::NotFound
        } else {
            ConfigError::Io(cause)
        }
    }

    /// Classifies a failed read by the kind of its cause.
    pub fn from_kind(kind: std::io::ErrorKind, cause: std::io::Error) -> (err: ConfigError)
        ensures
            err == Self::of_kind(kind, cause),
    {
        match kind {
            std::io::ErrorKind::NotFound => ConfigError::NotFound,
            _ => ConfigError::Io(cause),
        }
    }

    /// Whether `text` is the message of this error. Where there is a cause,
    /// the message ends with what the cause displays.
    pub open spec fn is_message(self, text: String) -> bool {
        match self {
            ConfigError::NotFound => text@ == "Couldn't find the config file"@,
            ConfigError::Io(err) => exists|cause: String|
                {
                    &&& #[trigger] to_string_from_display_ensures::<std::io::Error>(&err, cause)
                    &&& text@ == "I/O error reading the config file: "@ + cause@
                },
            ConfigError::Toml(err) => exists|cause: String|
                {
                    &&& #[trigger] err.is_message(cause)
                    &&& text@ == "TOML error reading the config file: "@ + cause@
                },
        }
    }

    /// The message of this error, for the user to read.
    pub fn message(&self) -> (text: String)
        ensures
            self.is_message(text),
    {
        match self {
            ConfigError::NotFound => "Couldn't find the config file".to_owned(),
            ConfigError::Io(err) => {
                let cause = err.to_string();
                let mut text = "I/O error reading the config file: ".to_owned();
                text.append(cause.as_str());
                text
            },
            ConfigError::Toml(err) => {
                let cause = err.message();
                let mut text = "TOML error reading the config file: ".to_owned();
                text.append(cause.as_str());
                text
            },
        }
    }
}

impl From<std::io::Error> for ConfigError {
    /// An error that says that the file does not exist becomes `NotFound`;
    /// every other one is kept as the cause of `Io`.
    fn from(err: std::io::Error) -> (converted: ConfigError) {
        let kind = err.kind();
        ConfigError::from_kind(kind, err)
    }
}

impl vstd::std_specs::convert::FromSpecImpl<std::io::Error> for ConfigError {
    open spec fn obeys_from_spec() -> bool {
        true
    }

    open spec fn from_spec(err: std::io::Error) -> ConfigError {
        ConfigError::of_kind(kind_of(err), err)
    }
}

impl From<toml::de::Error> for ConfigError {
    fn from(err: toml::de::Error) -> (converted: ConfigError) {
        ConfigError::Toml(TomlError::Syntax(err))
    }
}

impl vstd::std_specs::convert::FromSpecImpl<toml::de::Error> for ConfigError {
    open spec fn obeys_from_spec() -> bool {
        true
    }

    open spec fn from_spec(err: toml::de::Error) -> ConfigError {
        ConfigError::Toml(TomlError::Syntax(err))
    }
}

} // verus!
