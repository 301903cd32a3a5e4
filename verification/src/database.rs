//! Where the application keeps its database.

use vstd::prelude::*;
use vstd::string::*;
use crate::text::{replace_char, replaced};

verus! {

/// The name of the database file.
pub fn db_filename() -> (r: &'static str)
    ensures
        r@ == "pet_focus.sqlite"@,
{
    "pet_focus.sqlite"
}

/// The three names by which the directory of the application's data is
/// found: qualifier, organization and application.
pub fn project_names() -> (r: (&'static str, &'static str, &'static str))
    ensures
        r.0@ == "site"@,
        r.1@ == "yiges"@,
        r.2@ == "pet-focus"@,
{
    ("site", "yiges", "pet-focus")
}

/// The statement that switches foreign keys on.
pub fn foreign_keys_statement() -> (r: &'static str)
    ensures
        r@ == "PRAGMA foreign_keys = ON"@,
{
    "PRAGMA foreign_keys = ON"
}

/// The address under which the database file at `path` is opened, and
/// created where it is missing: the path with forward slashes for backward
/// ones, as an SQLite address in read-write-create mode.
pub open spec fn database_url(path: Seq<char>) -> Seq<char> {
    "sqlite://"@ + replaced(path, '\\', '/') + "?mode=rwc"@
}

/// The address under which the database file at `path` is opened.
pub fn connection_url(path: &str) -> (r: String)
    ensures
        r@ == database_url(path@),
{
    let mut url = String::from_str("sqlite://");
    url.append(replace_char(path, '\\', '/').as_str());
    url.append("?mode=rwc");
    url
}

} // verus!
