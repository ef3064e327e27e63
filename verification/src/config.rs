//! The configuration and the shape that a document must have to give one.

use vstd::prelude::*;
use crate::document::{entry, parse, parsed, tree, Tree};
use crate::error::TomlError;

verus! {

/// The three things that a colour stands for on the lock screen.
#[derive(Debug, Clone, Copy, PartialEq, Eq)]
pub enum Role {
    /// The screen has just been locked.
    Init,
    /// A password is being typed.
    Input,
    /// The last attempt to unlock has failed.
    Fail,
}

/// The colours that the file declares. A colour that the file leaves out is
/// `None`: which colour is then shown is decided elsewhere.
#[derive(Debug, Clone, Copy, PartialEq, Eq)]
pub struct Colors {
    pub init_color: Option<u32>,
    pub input_color: Option<u32>,
    pub fail_color: Option<u32>,
}

/// A configuration, read whole from one file.
#[derive(Debug, Clone, Copy, PartialEq, Eq)]
pub struct Config {
    pub colors: Colors,
}

impl Role {
    /// The key under which the `colors` table declares the colour of this role.
    pub open spec fn key(self) -> Seq<char> {
        match self {
            Role::Init => "init_color"@,
            Role::Input => "input_color"@,
            Role::Fail => "fail_color"@,
        }
    }

    /// The key under which the `colors` table declares the colour of this role.
    pub fn name(self) -> (name: &'static str)
        ensures
            name@ == self.key(),
    {
        match self {
            Role::Init => "init_color",
            Role::Input => "input_color",
            Role::Fail => "fail_color",
        }
    }
}

impl Colors {
    /// The colour of a role.
    pub open spec fn at(self, role: Role) -> Option<u32> {
        match role {
            Role::Init => self.init_color,
            Role::Input => self.input_color,
            Role::Fail => self.fail_color,
        }
    }

    /// Whether a value is a colour: an integer of 32 bits without sign.
    pub open spec fn is_color(value: Tree) -> bool {
        value matches Tree::Integer(number) && 0 <= number <= u32::MAX
    }

    /// What a table declares for a role: nothing where it lacks the role's
    /// key, the number under the key where that is a colour, and a mismatch
    /// for anything else under the key.
    pub open spec fn declared(section: Map<Seq<char>, Tree>, role: Role) -> Result<
        Option<u32>,
        TomlError,
    > {
        if !section.contains_key(role.key()) {
            Ok(None)
        } else if Self::is_color(section[role.key()]) {
            Ok(Some(section[role.key()]->Integer_0 as u32))
        } else {
            Err(TomlError::InvalidColor(role))
        }
    }

    /// The colours that a value declares. It has to be a table; of several
    /// mismatches the first in the order of [`Role`] is reported.
    pub open spec fn of(section: Tree) -> Result<Colors, TomlError> {
        match section {
            Tree::Table(entries) => match (
                Self::declared(entries, Role::Init),
                Self::declared(entries, Role::Input),
                Self::declared(entries, Role::Fail),
            ) {
                (Ok(init_color), Ok(input_color), Ok(fail_color)) => Ok(
                    Colors { init_color, input_color, fail_color },
                ),
                (Err(err), _, _) => Err(err),
                (_, Err(err), _) => Err(err),
                (_, _, Err(err)) => Err(err),
            },
            _ => Err(TomlError::ColorsNotTable),
        }
    }

    /// Reads the colour of one role from the `colors` table.
    pub fn color(section: &toml::Value, role: Role) -> (outcome: Result<Option<u32>, TomlError>)
        ensures
            outcome == Self::declared(tree(*section).entries(), role),
    {
        match entry(section, role.name()) {
            None => Ok(None),
            Some(value) => match value.as_integer() {
                Some(number) => if 0 <= number && number <= u32::MAX as i64 {
                    Ok(Some(number as u32))
                } else {
                    Err(TomlError::InvalidColor(role))
                },
                None => Err(TomlError::InvalidColor(role)),
            },
        }
    }

    /// Reads the colours from the value under `colors`.
    pub fn from_value(section: &toml::Value) -> (outcome: Result<Colors, TomlError>)
        ensures
            outcome == Self::of(tree(*section)),
    {
        if !section.is_table() {
            return Err(TomlError::ColorsNotTable);
        }
        let init_color = match Self::color(section, Role::Init) {
            Ok(color) => color,
            Err(err) => return Err(err),
        };
        let input_color = match Self::color(section, Role::Input) {
            Ok(color) => color,
            Err(err) => return Err(err),
        };
        let fail_color = match Self::color(section, Role::Fail) {
            Ok(color) => color,
            Err(err) => return Err(err),
        };
        Ok(Colors { init_color, input_color, fail_color })
    }
}

impl Config {
    /// The configuration that a document declares. The document has to hold
    /// the key `colors`, and under it what [`Colors::of`] accepts. Other keys
    /// are not looked at.
    pub open spec fn of(document: Tree) -> Result<Config, TomlError> {
        if document.entries().contains_key("colors"@) {
            match Colors::of(document.entries()["colors"@]) {
                Ok(colors) => Ok(Config { colors }),
                Err(err) => Err(err),
            }
        } else {
            Err(TomlError::MissingColors)
        }
    }

    /// The configuration that a text declares: that of its document where the
    /// text is TOML, and the parser's error where it is not.
    pub open spec fn read(text: Seq<char>) -> Result<Config, TomlError> {
        match parsed(text) {
            Ok(document) => Self::of(document),
            Err(err) => Err(TomlError::Syntax(err)),
        }
    }

    /// Reads the configuration from a parsed document.
    pub fn from_value(document: &toml::Value) -> (outcome: Result<Config, TomlError>)
        ensures
            outcome == Self::of(tree(*document)),
    {
        match entry(document, "colors") {
            None => Err(TomlError::MissingColors),
            Some(section) => match Colors::from_value(section) {
                Ok(colors) => Ok(Config { colors }),
                Err(err) => Err(err),
            },
        }
    }

    /// Reads the configuration from the text of a file. All of the text is
    /// parsed and checked before anything is returned.
    pub fn parse(text: &str) -> (outcome: Result<Config, TomlError>)
        ensures
            outcome == Self::read(text@),
    {
        match parse(text) {
            Ok(document) => Self::from_value(&document),
            Err(err) => Err(TomlError::Syntax(err)),
        }
    }
}

} // verus!
