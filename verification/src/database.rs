//! What the persistence layer decides before it opens the database: where
//! the file lies, and in which forms a connection is tried.

use vstd::prelude::*;
use crate::files::{join, join_path};
use crate::locator::Platform;
use crate::models::opt_text;
use crate::text::{chars_of, concat2, replace_char, replaced, string_of};

verus! {

/// The directory of the database, below the data directory of the
/// application.
pub const DATA_DIR: &'static str = "data";

/// The file of the database.
pub const DATABASE_FILE: &'static str = "rights_guard.db";

/// The address of a database that lives in memory only.
pub const IN_MEMORY_URL: &'static str = "sqlite::memory:";

/// The start of the address of a database file, in the old form.
pub const LEGACY_SCHEME: &'static str = "sqlite:";

/// The start of the address of a database file on Windows, as a URI.
pub const URI_SCHEME_WINDOWS: &'static str = "file:///";

/// The start of the address of a database file elsewhere, as a URI.
pub const URI_SCHEME: &'static str = "file://";

/// The end of the address of a database file, as a URI.
pub const URI_OPTIONS: &'static str = "?cache=shared&mode=rwc";

/// The address of the database that was used last, kept until it is
/// cleared.
#[derive(Clone, Debug, PartialEq, Eq)]
pub struct DatabaseCache {
    pub url: Option<String>,
}

impl View for DatabaseCache {
    type V = Option<Seq<char>>;

    open spec fn view(&self) -> Option<Seq<char>> {
        opt_text(self.url)
    }
}

impl DatabaseCache {
    /// A cache that holds nothing.
    pub fn new() -> (cache: DatabaseCache)
        ensures
            cache@ is None,
    {
        DatabaseCache { url: None }
    }

    /// Keeps an address.
    pub fn remember(&mut self, url: String)
        ensures
            final(self)@ == Some(url@),
    {
        self.url = Some(url);
    }
}

/// Forgets the address that was kept, so that the next connection works the
/// path out anew.
pub fn clear_database_cache(cache: &mut DatabaseCache)
    ensures
        final(cache)@ is None,
{
    cache.url = None;
}

/// The path of the database file below the directory `base`.
pub open spec fn database_path_of(base: Seq<char>) -> Seq<char> {
    join_path(join_path(base, DATA_DIR@), DATABASE_FILE@)
}

/// The directory of the database below the directory `base`.
pub fn data_dir_under(base: &str) -> (dir: String)
    ensures
        dir@ == join_path(base@, DATA_DIR@),
{
    string_of(&join(&chars_of(base), &chars_of(DATA_DIR)))
}

/// The path of the database file below the directory `base`.
pub fn get_database_path(base: &str) -> (path: String)
    ensures
        path@ == database_path_of(base@),
{
    let dir = join(&chars_of(base), &chars_of(DATA_DIR));
    string_of(&join(&dir, &chars_of(DATABASE_FILE)))
}

/// The forms in which a connection is tried, in their order.
#[derive(Clone, Copy, Debug, PartialEq, Eq, Structural)]
pub enum ConnectionStrategy {
    /// The path with all options.
    Primary,
    /// The path with no option but to create the file.
    Minimal,
    /// The path as a URI.
    Uri,
    /// The path in the old form of address.
    Legacy,
    /// No file: a database in memory, which does not last.
    InMemory,
}

impl ConnectionStrategy {
    /// The place of the strategy in the order.
    pub open spec fn rank(self) -> nat {
        match self {
            ConnectionStrategy::Primary => 0,
            ConnectionStrategy::Minimal => 1,
            ConnectionStrategy::Uri => 2,
            ConnectionStrategy::Legacy => 3,
            ConnectionStrategy::InMemory => 4,
        }
    }

    /// The strategy that is tried when this one has failed, or `None` after
    /// the last.
    pub fn next(self) -> (n: Option<ConnectionStrategy>)
        ensures
            n matches Some(s) ==> s.rank() == self.rank() + 1,
            n is None <==> self == ConnectionStrategy::InMemory,
    {
        match self {
            ConnectionStrategy::Primary => Some(ConnectionStrategy::Minimal),
            ConnectionStrategy::Minimal => Some(ConnectionStrategy::Uri),
            ConnectionStrategy::Uri => Some(ConnectionStrategy::Legacy),
            ConnectionStrategy::Legacy => Some(ConnectionStrategy::InMemory),
            ConnectionStrategy::InMemory => None,
        }
    }
}

/// The path of the database file as the primary connection takes it: as it
/// stands on Windows, with slashes for backslashes elsewhere.
pub open spec fn sqlite_path_of(path: Seq<char>, platform: Platform) -> Seq<char> {
    match platform {
        Platform::Windows => path,
        _ => replaced(path, '\\', '/'),
    }
}

/// The address of the database file as a URI.
pub open spec fn sqlite_uri_of(path: Seq<char>, platform: Platform) -> Seq<char> {
    match platform {
        Platform::Windows => URI_SCHEME_WINDOWS@ + replaced(path, '\\', '/') + URI_OPTIONS@,
        _ => URI_SCHEME@ + path + URI_OPTIONS@,
    }
}

/// What a strategy connects to, for the database file at `path`.
pub open spec fn connection_target_of(
    strategy: ConnectionStrategy,
    path: Seq<char>,
    platform: Platform,
) -> Seq<char> {
    match strategy {
        ConnectionStrategy::Primary => sqlite_path_of(path, platform),
        ConnectionStrategy::Minimal => path,
        ConnectionStrategy::Uri => sqlite_uri_of(path, platform),
        ConnectionStrategy::Legacy => LEGACY_SCHEME@ + path,
        ConnectionStrategy::InMemory => IN_MEMORY_URL@,
    }
}

/// What a strategy connects to, for the database file at `path`.
pub fn connection_target(strategy: ConnectionStrategy, path: &str, platform: Platform) -> (target:
    String)
    ensures
        target@ == connection_target_of(strategy, path@, platform),
{
    match strategy {
        ConnectionStrategy::Primary => match platform {
            Platform::Windows => String::from_str(path),
            _ => string_of(&replace_char(&chars_of(path), '\\', '/')),
        },
        ConnectionStrategy::Minimal => String::from_str(path),
        ConnectionStrategy::Uri => match platform {
            Platform::Windows => {
                let mut target = String::from_str(URI_SCHEME_WINDOWS);
                target.append(string_of(&replace_char(&chars_of(path), '\\', '/')).as_str());
                target.append(URI_OPTIONS);
                target
            },
            _ => {
                let mut target = String::from_str(URI_SCHEME);
                target.append(path);
                target.append(URI_OPTIONS);
                target
            },
        },
        ConnectionStrategy::Legacy => concat2(LEGACY_SCHEME, path),
        ConnectionStrategy::InMemory => String::from_str(IN_MEMORY_URL),
    }
}

} // verus!
