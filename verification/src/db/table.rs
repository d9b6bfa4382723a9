//! The credentials table: a connection to the database can only be had
//! through `open`, which creates the table when it is missing, so every write
//! and lookup runs on a database that has it.

use vstd::prelude::*;
use rusqlite::{Connection, Statement};
use crate::db::{create_table_statement, select_statement, store_error, upsert_statement, DbError};

verus! {

/// A connection to the credential database on which the credentials table
/// was created (or already existed). Only `open` makes one.
pub struct TableConnection {
    conn: Connection,
}

/// Calls `rusqlite::Connection::open` on `path`, which opens (creating it if
/// needed) the database file. Whether it succeeds depends on the file system,
/// so nothing is promised of the result.
#[verifier::external_body]
fn connection_open(path: &str) -> Result<Connection, rusqlite::Error> {
    Connection::open(path)
}

/// Calls `rusqlite::Connection::execute_batch`, which runs each statement of
/// `sql`. Its outcome depends on the database file.
#[verifier::external_body]
fn execute_batch(conn: &Connection, sql: &str) -> Result<(), rusqlite::Error> {
    conn.execute_batch(sql)
}

/// Calls `rusqlite::Connection::execute` with the two text parameters `first`
/// and `second`; on success it returns the number of changed rows. Its outcome
/// depends on the database file.
#[verifier::external_body]
fn execute_with_pair(conn: &Connection, sql: &str, first: &str, second: &str) -> Result<usize, rusqlite::Error> {
    conn.execute(sql, [first, second])
}

/// Calls `rusqlite::Connection::prepare`, which compiles `sql` into a
/// statement. Its outcome depends on the database file.
#[verifier::external_body]
fn prepare<'conn>(conn: &'conn Connection, sql: &str) -> Result<Statement<'conn>, rusqlite::Error> {
    conn.prepare(sql)
}

/// Calls `rusqlite::Statement::query_row` with the text parameter `param` and
/// reads column 0 of the first row as text; no row is the error
/// `QueryReturnedNoRows`. Its outcome depends on the database file.
#[verifier::external_body]
fn query_first_text(stmt: &mut Statement, param: &str) -> Result<String, rusqlite::Error> {
    stmt.query_row([param], |row| row.get::<_, String>(0))
}

/// Opens the database at `path` and makes sure the credentials table exists.
pub fn open(path: &str) -> Result<TableConnection, DbError> {
    let conn = match connection_open(path) {
        Ok(c) => c,
        Err(e) => return Err(store_error(&e)),
    };
    let create = create_table_statement();
    match execute_batch(&conn, create.sql) {
        Ok(()) => Ok(TableConnection { conn }),
        Err(e) => Err(store_error(&e)),
    }
}

/// Stores `value` under `key`, replacing any earlier value; on success the
/// number of changed rows.
pub fn upsert(t: &TableConnection, key: &str, value: &str) -> Result<usize, rusqlite::Error> {
    let s = upsert_statement(key, value);
    execute_with_pair(&t.conn, s.sql, s.params[0].as_str(), s.params[1].as_str())
}

/// The value stored under `key`; no stored value is the error
/// `QueryReturnedNoRows`.
pub fn lookup(t: &TableConnection, key: &str) -> Result<String, rusqlite::Error> {
    let s = select_statement(key);
    let mut stmt = prepare(&t.conn, s.sql)?;
    query_first_text(&mut stmt, s.params[0].as_str())
}

} // verus!
