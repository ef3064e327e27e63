//! What holds of every load.
//!
//! Each law is stated over [`Load::start`] and [`Load::next`], the two
//! functions that [`Config::new`](crate::Config::new) and [`Load::step`] are
//! proved to compute.

use vstd::prelude::*;
use crate::config::{Colors, Config, Role};
use crate::document::{parsed, Tree};
use crate::error::{kind_of, ConfigError, TomlError};
use crate::load::{Event, Load};

verus! {

/// A file at the given path whose text is TOML, with a table `colors` in
/// which each of the three keys is either left out or holds a colour, loads.
/// Each colour of the configuration is then the one that the file declares,
/// and `None` where the file leaves it out.
pub proof fn lemma_well_formed_file_loads<P>(
    path: P,
    text: String,
    document: Tree,
    section: Map<Seq<char>, Tree>,
)
    requires
        parsed(text@) == Ok::<Tree, toml::de::Error>(document),
        document.entries().contains_key("colors"@),
        document.entries()["colors"@] == Tree::Table(section),
        forall|role: Role| #[trigger]
            section.contains_key(role.key()) ==> Colors::is_color(section[role.key()]),
    ensures
        Load::start(Some(path)).next(Event::Contents(Ok(text))) matches Load::Done(Ok(config))
            && forall|role: Role| #[trigger]
            config.colors.at(role) == if section.contains_key(role.key()) {
                Some(section[role.key()]->Integer_0 as u32)
            } else {
                None
            },
{
}

/// Keys that the loader does not know play no part: two documents whose
/// `colors` tables agree on the keys of the three roles declare the same
/// configuration, or fail in the same way.
pub proof fn lemma_unknown_keys_are_ignored(
    first: Tree,
    second: Tree,
    section: Map<Seq<char>, Tree>,
    other: Map<Seq<char>, Tree>,
)
    requires
        first.entries().contains_key("colors"@),
        first.entries()["colors"@] == Tree::Table(section),
        second.entries().contains_key("colors"@),
        second.entries()["colors"@] == Tree::Table(other),
        forall|role: Role| #[trigger]
            section.contains_key(role.key()) == other.contains_key(role.key()),
        forall|role: Role| #[trigger]
            section.contains_key(role.key()) ==> section[role.key()] == other[role.key()],
    ensures
        Config::of(first) == Config::of(second),
{
}

/// Each role has a key of its own, so that no entry of the `colors` table
/// declares two colours.
pub proof fn lemma_roles_have_keys_of_their_own(first: Role, second: Role)
    requires
        first != second,
    ensures
        first.key() != second.key(),
{
    reveal_strlit("init_color");
    reveal_strlit("input_color");
    reveal_strlit("fail_color");
    assert("init_color"@.len() != "input_color"@.len());
    assert("fail_color"@.len() != "input_color"@.len());
    assert("init_color"@[0] != "fail_color"@[0]);
}

/// A given path at which there is no file ends the load with `NotFound`.
pub proof fn lemma_missing_file_is_not_found<P>(path: P, err: std::io::Error)
    requires
        kind_of(err) is NotFound,
    ensures
        Load::start(Some(path)).next(Event::Contents(Err(err))) == Load::<P>::Done(
            Err(ConfigError::NotFound),
        ),
{
}

/// A file at the given path that cannot be read, for any reason but its
/// absence, ends the load with `Io`, which keeps the reason.
pub proof fn lemma_unreadable_file_is_io<P>(path: P, err: std::io::Error)
    requires
        !(kind_of(err) is NotFound),
    ensures
        Load::start(Some(path)).next(Event::Contents(Err(err))) == Load::<P>::Done(
            Err(ConfigError::Io(err)),
        ),
{
}

/// A file at the given path whose text is not TOML ends the load with `Toml`,
/// which keeps the parser's report.
pub proof fn lemma_malformed_file_is_toml<P>(path: P, text: String, err: toml::de::Error)
    requires
        parsed(text@) == Err::<Tree, toml::de::Error>(err),
    ensures
        Load::start(Some(path)).next(Event::Contents(Ok(text))) == Load::<P>::Done(
            Err(ConfigError::Toml(TomlError::Syntax(err))),
        ),
{
}

/// Without a given path, and with no file at the conventional place, the load
/// ends with `NotFound` as soon as the search has answered: no read is asked
/// for.
pub proof fn lemma_nothing_located_is_not_found<P>()
    ensures
        Load::<P>::start(None) == Load::<P>::Locate,
        Load::<P>::Locate.next(Event::Located(None)) == Load::<P>::Done(
            Err(ConfigError::NotFound),
        ),
{
}

/// Without a given path, a file found at the conventional place is read, and
/// the load ends as it would have for the same path given.
pub proof fn lemma_located_file_loads_as_given<P>(
    path: P,
    contents: Result<String, std::io::Error>,
)
    ensures
        Load::start(None).next(Event::Located(Some(path))) == Load::Read(path),
        Load::start(None).next(Event::Located(Some(path))).next(Event::Contents(contents))
            == Load::start(Some(path)).next(Event::Contents(contents)),
{
}

/// A given path is final: what a search would have found plays no part.
pub proof fn lemma_given_path_is_final<P>(path: P, located: Option<P>)
    ensures
        Load::start(Some(path)).next(Event::Located(located)) == Load::start(Some(path)),
{
}

/// Every load ends. It begins with a question, the answer to a search
/// leaves at most a read to do, and the answer to a read ends the load.
pub proof fn lemma_every_load_ends<P>(
    path_override: Option<P>,
    path: P,
    located: Option<P>,
    contents: Result<String, std::io::Error>,
)
    ensures
        Load::start(path_override) is Locate || Load::start(path_override) is Read,
        Load::<P>::Locate.next(Event::Located(located)) is Read || Load::<P>::Locate.next(
            Event::Located(located),
        ) is Done,
        Load::Read(path).next(Event::Contents(contents)) is Done,
{
}

/// Loading twice from the same path gives the same result, as long as the
/// file keeps its text, or keeps failing with the same error.
pub proof fn lemma_load_is_repeatable<P>(
    path: P,
    first: Result<String, std::io::Error>,
    second: Result<String, std::io::Error>,
)
    requires
        match (first, second) {
            (Ok(text), Ok(again)) => text@ == again@,
            (Err(err), Err(again)) => err == again,
            _ => false,
        },
    ensures
        Load::start(Some(path)).next(Event::Contents(first)) == Load::start(Some(path)).next(
            Event::Contents(second),
        ),
{
}

} // verus!
