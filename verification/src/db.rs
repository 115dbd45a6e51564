//! Where the store is: the database that a connection string names, and the
//! collections in it that hold the bot and the workers.

use vstd::prelude::*;
use vstd::string::StrSliceExecFns;
use crate::error::CoreError;

verus! {

/// The path of the URL that `url::Url::parse` reads from `input`, as
/// `url::Url::path` returns it; `None` where `input` is rejected.
pub uninterp spec fn parsed_path(input: Seq<char>) -> Option<Seq<char>>;

/// Parses `input` with `url::Url::parse` and copies what `url::Url::path`
/// returns for it: the path, percent-encoded, with its leading slash where
/// the URL has one. The reason of a rejection is handed on as it is.
#[verifier::external_body]
fn url_path(input: &str) -> (path: Result<String, url::ParseError>)
    ensures
        path is Ok == parsed_path(input@) is Some,
        path is Ok ==> path->Ok_0@ == parsed_path(input@)->0,
{
    match url::Url::parse(input) {
        Ok(parsed) => Ok(parsed.path().to_owned()),
        Err(reason) => Err(reason),
    }
}

/// The database that the path of a connection string names: what follows the
/// first character of the path, if anything does.
pub open spec fn database_name_of(path: Seq<char>) -> Option<Seq<char>> {
    if path.len() <= 1 {
        None
    } else {
        Some(path.skip(1))
    }
}

/// The database that the path of a connection string names. A path that
/// names none is refused with `DatabaseName`.
pub fn database_name(path: &str) -> (name: Result<String, CoreError>)
    ensures
        match database_name_of(path@) {
            Some(expected) => name is Ok && name->Ok_0@ == expected,
            None => name == Err::<String, CoreError>(CoreError::DatabaseName),
        },
{
    let len = path.unicode_len();
    if len <= 1 {
        Err(CoreError::DatabaseName)
    } else {
        let name = path.substring_char(1, len).to_owned();
        assert(path@.subrange(1, len as int) =~= path@.skip(1));
        Ok(name)
    }
}

/// What `parse_database_name` returns for a connection string.
pub open spec fn parses_to(database_url: Seq<char>, name: Result<String, CoreError>) -> bool {
    match parsed_path(database_url) {
        None => name is Err && name->Err_0 is UrlParse,
        Some(path) => match database_name_of(path) {
            Some(expected) => name is Ok && name->Ok_0@ == expected,
            None => name == Err::<String, CoreError>(CoreError::DatabaseName),
        },
    }
}

/// The database that a connection string names. A string that is no URL is
/// refused with `UrlParse`, a URL that names no database with `DatabaseName`.
pub fn parse_database_name(database_url: &str) -> (name: Result<String, CoreError>)
    ensures
        parses_to(database_url@, name),
{
    match url_path(database_url) {
        Ok(path) => database_name(path.as_str()),
        Err(reason) => Err(CoreError::from(reason)),
    }
}

/// Where the store is: the name of the database, and the names of the two
/// collections in it.
#[derive(Debug, PartialEq, Eq)]
pub struct DB {
    pub database_name: String,
    /// The collection that holds the one bot record.
    pub bot_col: String,
    /// The collection that holds the workers.
    pub worker_col: String,
}

impl DB {
    /// Whether `db` is the place that a connection string to the database `name` gives.
    pub open spec fn located(db: DB, name: Seq<char>) -> bool {
        &&& db.database_name@ == name
        &&& db.bot_col@ == "bot"@
        &&& db.worker_col@ == "worker"@
    }

    /// The place that a connection string names. Fails as `parse_database_name` does.
    pub fn new(database_url: &str) -> (db: Result<DB, CoreError>)
        ensures
            match parsed_path(database_url@) {
                None => db is Err && db->Err_0 is UrlParse,
                Some(path) => match database_name_of(path) {
                    Some(name) => db is Ok && DB::located(db->Ok_0, name),
                    None => db == Err::<DB, CoreError>(CoreError::DatabaseName),
                },
            },
    {
        match parse_database_name(database_url) {
            Ok(database_name) => Ok(
                DB { database_name, bot_col: "bot".to_owned(), worker_col: "worker".to_owned() },
            ),
            Err(e) => Err(e),
        }
    }
}

impl Clone for DB {
    fn clone(&self) -> (copy: DB)
        ensures
            copy == *self,
    {
        DB {
            database_name: self.database_name.clone(),
            bot_col: self.bot_col.clone(),
            worker_col: self.worker_col.clone(),
        }
    }
}

} // verus!
