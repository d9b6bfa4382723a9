//! Credential store: a SQLite table of key/value pairs.
//!
//! The caller resolves and creates the directory of the database file and
//! passes its path; every call opens the file, makes sure the table exists,
//! and runs one statement.

use vstd::prelude::*;
use rusqlite::{Connection, OptionalExtension, Statement};

mod table;

verus! {

#[verifier::external_type_specification]
#[verifier::external_body]
pub struct ExConnection(Connection);

#[verifier::external_type_specification]
#[verifier::external_body]
pub struct ExStatement<'conn>(Statement<'conn>);

#[verifier::external_type_specification]
#[verifier::external_body]
pub struct ExSqliteError(rusqlite::Error);

/// Creates the credentials table when it is missing.
pub const CREATE_TABLE_SQL: &'static str = "CREATE TABLE IF NOT EXISTS credentials (
            key   TEXT PRIMARY KEY,
            value TEXT NOT NULL
        );";

/// Stores a value under a key, replacing any earlier value.
pub const UPSERT_SQL: &'static str = "INSERT OR REPLACE INTO credentials (key, value) VALUES (?1, ?2)";

/// Reads the value stored under a key.
pub const SELECT_SQL: &'static str = "SELECT value FROM credentials WHERE key = ?1";

/// A failure of the credential store, with the database's error text.
#[derive(Debug, Clone)]
pub struct DbError {
    pub message: String,
}

impl DbError {
    /// The error text.
    pub fn message(&self) -> (text: String)
        ensures
            text@ == self.message@,
    {
        self.message.clone()
    }
}

/// Calls `rusqlite::OptionalExtension::optional`: a value becomes `Some`, the
/// no-row error becomes `None`, any other error stays an error.
#[verifier::external_body]
fn optional(r: Result<String, rusqlite::Error>) -> (o: Result<Option<String>, rusqlite::Error>)
    ensures
        match r {
            Ok(v) => o == Ok::<Option<String>, rusqlite::Error>(Some(v)),
            Err(_) => o matches Ok(None) || o is Err,
        },
{
    r.optional()
}

/// Formats a `rusqlite::Error` with its `Display` implementation.
#[verifier::external_body]
fn error_text(e: &rusqlite::Error) -> String {
    e.to_string()
}

pub(crate) fn store_error(e: &rusqlite::Error) -> DbError {
    DbError { message: error_text(e) }
}

/// A SQL statement with its text parameters, in order.
pub struct DbStatement {
    pub sql: &'static str,
    pub params: Vec<String>,
}

/// The creation of the credentials table (no parameters).
pub fn create_table_statement() -> (s: DbStatement)
    ensures
        s.sql@ == CREATE_TABLE_SQL@,
        s.params@.len() == 0,
{
    DbStatement { sql: CREATE_TABLE_SQL, params: Vec::new() }
}

/// Storing `value` under `key`: the parameters are the key, then the value.
pub fn upsert_statement(key: &str, value: &str) -> (s: DbStatement)
    ensures
        s.sql@ == UPSERT_SQL@,
        s.params@.len() == 2,
        s.params@[0]@ == key@,
        s.params@[1]@ == value@,
{
    let mut params: Vec<String> = Vec::new();
    params.push(key.to_owned());
    params.push(value.to_owned());
    DbStatement { sql: UPSERT_SQL, params }
}

/// Reading the value under `key`: the one parameter is the key.
pub fn select_statement(key: &str) -> (s: DbStatement)
    ensures
        s.sql@ == SELECT_SQL@,
        s.params@.len() == 1,
        s.params@[0]@ == key@,
{
    let mut params: Vec<String> = Vec::new();
    params.push(key.to_owned());
    DbStatement { sql: SELECT_SQL, params }
}

/// The outcome of a write: success whatever the number of changed rows, and a
/// store error for a database error.
pub fn write_result(r: Result<usize, rusqlite::Error>) -> (o: Result<(), DbError>)
    ensures
        match r {
            Ok(_) => o == Ok::<(), DbError>(()),
            Err(_) => o is Err,
        },
{
    match r {
        Ok(_) => Ok(()),
        Err(e) => Err(store_error(&e)),
    }
}

/// The outcome of a lookup: the value found (or `None`) as is, and a store
/// error for a database error.
pub fn lookup_result(r: Result<Option<String>, rusqlite::Error>) -> (o: Result<Option<String>, DbError>)
    ensures
        match r {
            Ok(v) => o == Ok::<Option<String>, DbError>(v),
            Err(_) => o is Err,
        },
{
    match r {
        Ok(v) => Ok(v),
        Err(e) => Err(store_error(&e)),
    }
}

/// Stores `value` under `key` in the database at `path`, replacing any value
/// stored there before.
pub fn set(path: &str, key: &str, value: &str) -> (r: Result<(), DbError>) {
    let conn = table::open(path)?;
    write_result(table::upsert(&conn, key, value))
}

/// The value stored under `key` in the database at `path`, or `None` when
/// there is none.
pub fn get(path: &str, key: &str) -> (r: Result<Option<String>, DbError>) {
    let conn = table::open(path)?;
    lookup_result(optional(table::lookup(&conn, key)))
}

} // verus!
