//! The TOML document behind a configuration file, as the `toml` crate reads it.
//!
//! The grammar is the `toml` crate's business. This module declares the two
//! types of that crate which the loader handles, gives a mathematical model to
//! a parsed value, and states over that model what the parser and the three
//! accessors in use are taken to do. None of these statements is proved: they
//! are the assumptions on which the proofs of the loader rest.

use vstd::prelude::*;

verus! {

/// `toml::Value`: a parsed TOML value. Verus sees nothing inside it; [`tree`]
/// says what the loader reads of it.
#[verifier::external_type_specification]
#[verifier::external_body]
pub struct ExValue(toml::Value);

/// `toml::de::Error`: the parser's report on a text that it rejects. It is
/// carried through unread.
#[verifier::external_type_specification]
#[verifier::external_body]
pub struct ExSyntaxError(toml::de::Error);

/// What the loader reads of a TOML value.
pub enum Tree {
    /// An integer.
    Integer(i64),
    /// A table, as a map from its keys to the values under them.
    Table(Map<Seq<char>, Tree>),
    /// A string, a float, a boolean, a date-time or an array.
    Other,
}

impl Tree {
    /// The entries of a table. A value that is no table has none.
    pub open spec fn entries(self) -> Map<Seq<char>, Tree> {
        match self {
            Tree::Table(entries) => entries,
            _ => Map::empty(),
        }
    }
}

/// The model of a `toml::Value`: `Integer` for `Value::Integer` with its
/// number, `Table` for `Value::Table` with the model of each entry under its
/// key, `Other` for the five remaining variants.
pub uninterp spec fn tree(value: toml::Value) -> Tree;

/// What `toml::from_str::<toml::Value>` makes of a text: the model of the
/// document, or the error with which the text is rejected.
pub uninterp spec fn parsed(text: Seq<char>) -> Result<Tree, toml::de::Error>;

/// Calls `toml::from_str::<toml::Value>`. Assumed: the outcome depends on the
/// characters of the text alone, which is all that the name [`parsed`] claims.
/// The parser descends once for each level of nesting in the text and sets no
/// limit of its own: like every recursion, it needs a stack that is deep
/// enough for its input.
#[verifier::external_body]
pub(crate) fn parse(text: &str) -> (outcome: Result<toml::Value, toml::de::Error>)
    ensures
        match outcome {
            Ok(value) => parsed(text@) == Ok::<Tree, toml::de::Error>(tree(value)),
            Err(err) => parsed(text@) == Err::<Tree, toml::de::Error>(err),
        },
{
    toml::from_str::<toml::Value>(text)
}

/// Calls `toml::Value::get` with a string index. Assumed, as the crate
/// documents it: the value under `key` where `value` is a table that holds the
/// key, and `None` where it is a table without the key or no table at all.
#[verifier::external_body]
pub(crate) fn entry<'a>(value: &'a toml::Value, key: &str) -> (found: Option<&'a toml::Value>)
    ensures
        match found {
            Some(inner) => tree(*value).entries().contains_key(key@)
                && tree(*inner) == tree(*value).entries()[key@],
            None => !tree(*value).entries().contains_key(key@),
        },
{
    value.get(key)
}

/// Assumed of `toml::Value::as_integer`: the number of an integer, and `None`
/// for every other value.
pub assume_specification[ toml::Value::as_integer ](value: &toml::Value) -> (number: Option<i64>)
    ensures
        number == (match tree(*value) {
            Tree::Integer(held) => Some(held),
            _ => None,
        }),
;

/// Assumed of `toml::Value::is_table`: whether the value is a table.
pub assume_specification[ toml::Value::is_table ](value: &toml::Value) -> (table: bool)
    ensures
        table == (tree(*value) is Table),
;

} // verus!
