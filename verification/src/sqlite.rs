//! The SQLite database, which the rusqlite crate drives.
//!
//! What a statement does to the database, and what a query finds in it, is
//! the business of SQLite and of whoever else writes to the file: none of
//! the functions here claims anything of what it returns.

use vstd::prelude::*;
use rusqlite::types::Value;
use rusqlite::Connection;
use crate::sql::SqlValue;
use crate::text::opt_text;

verus! {

/// `rusqlite::Connection`: an open database. Nothing of it is seen here.
#[verifier::external_type_specification]
#[verifier::external_body]
pub struct ExConnection(rusqlite::Connection);

/// `rusqlite::Error`: why a call into the store failed. Nothing of it is
/// seen here; `describe` turns it into words.
#[verifier::external_type_specification]
#[verifier::external_body]
pub struct ExSqliteError(rusqlite::Error);

/// `rusqlite::types::Value`: a value as it is bound to a statement. Nothing
/// of it is seen here.
#[verifier::external_type_specification]
#[verifier::external_body]
pub struct ExValue(rusqlite::types::Value);

/// `std::path::PathBuf`: the path of a file, carried through to
/// `Connection::open`. Nothing of it is seen here.
#[verifier::external_type_specification]
#[verifier::external_body]
pub struct ExPathBuf(std::path::PathBuf);

/// The columns of one row of the table of entries, as the store holds them.
#[derive(Debug, Clone)]
pub struct RawRow {
    pub id: i64,
    pub content: String,
    pub content_type: String,
    pub byte_size: i64,
    pub created_at: String,
    pub label: Option<String>,
}

/// The mathematical value of a [`RawRow`].
pub struct RawRowView {
    pub id: int,
    pub content: Seq<char>,
    pub content_type: Seq<char>,
    pub byte_size: int,
    pub created_at: Seq<char>,
    pub label: Option<Seq<char>>,
}

impl View for RawRow {
    type V = RawRowView;

    open spec fn view(&self) -> RawRowView {
        RawRowView {
            id: self.id as int,
            content: self.content@,
            content_type: self.content_type@,
            byte_size: self.byte_size as int,
            created_at: self.created_at@,
            label: opt_text(self.label),
        }
    }
}

/// What the store said of a statement that failed.
#[derive(Debug, Clone)]
pub struct SqlFailure {
    /// A row was expected of a query that found none.
    pub no_rows: bool,
    /// The store's own words.
    pub message: String,
}

/// `Connection::open`: opens the database file at a path, creating it where
/// there is none. Nothing is claimed of the outcome.
#[verifier::external_body]
pub(crate) fn open_connection(path: &std::path::PathBuf) -> (r: Result<
    Connection,
    rusqlite::Error,
>) {
    Connection::open(path)
}

/// `Connection::execute_batch`: runs statements that take no values. Nothing
/// is claimed of the outcome.
#[verifier::external_body]
pub(crate) fn execute_batch(conn: &Connection, sql: &str) -> (r: Result<(), rusqlite::Error>) {
    conn.execute_batch(sql)
}

/// Makes the `rusqlite::types::Value` that stands for a bound value: its
/// variant `Null`, `Integer` or `Text`, with the same content. The value is
/// opaque here, and nothing is claimed of it.
#[verifier::external_body]
fn to_value(v: &SqlValue) -> (r: Value) {
    match v {
        SqlValue::Null => Value::Null,
        SqlValue::Integer(i) => Value::Integer(*i),
        SqlValue::Text(t) => Value::Text(t.clone()),
    }
}

/// The values of rusqlite that stand for bound values, in their order.
pub(crate) fn bind(params: &Vec<SqlValue>) -> (values: Vec<Value>)
    ensures
        values@.len() == params@.len(),
{
    let mut values: Vec<Value> = Vec::new();
    let mut i: usize = 0;
    while i < params.len()
        invariant
            i <= params@.len(),
            values@.len() == i,
        decreases params@.len() - i,
    {
        values.push(to_value(&params[i]));
        i = i + 1;
    }
    values
}

/// `Connection::execute`: runs one statement with the values bound to its
/// placeholders and returns the number of rows that SQLite counts as
/// changed. Nothing is claimed of the outcome.
#[verifier::external_body]
pub(crate) fn execute(conn: &Connection, sql: &str, values: &Vec<Value>) -> (r: Result<
    usize,
    rusqlite::Error,
>) {
    conn.execute(sql, rusqlite::params_from_iter(values.iter()))
}

/// `Connection::last_insert_rowid`: the row id of the most recent insert that
/// succeeded on this connection. Nothing is claimed of it.
#[verifier::external_body]
pub(crate) fn last_insert_rowid(conn: &Connection) -> (r: i64) {
    conn.last_insert_rowid()
}

/// `Connection::query_row` and `Row::get`: runs a query and hands out the six
/// columns of its first row, each as the type of its field. Nothing is
/// claimed of the outcome.
#[verifier::external_body]
pub(crate) fn query_row(conn: &Connection, sql: &str, values: &Vec<Value>) -> (r: Result<
    RawRow,
    rusqlite::Error,
>) {
    conn.query_row(sql, rusqlite::params_from_iter(values.iter()), |row| {
        let content_type = row.get(2)?;
        Ok(RawRow {
            id: row.get(0)?,
            content: row.get(1)?,
            content_type,
            byte_size: row.get(3)?,
            created_at: row.get(4)?,
            label: row.get(5)?,
        })
    })
}

/// `Connection::prepare`, `Statement::query_map` and `Row::get`: runs a query
/// and hands out the six columns of each of its rows, in the order of the
/// result; the first row that cannot be read ends the query with its error.
/// Nothing is claimed of the outcome.
#[verifier::external_body]
pub(crate) fn query_rows(conn: &Connection, sql: &str, values: &Vec<Value>) -> (r: Result<
    Vec<RawRow>,
    rusqlite::Error,
>) {
    let mut prepared = conn.prepare(sql)?;
    let rows = prepared.query_map(rusqlite::params_from_iter(values.iter()), |row| {
        let content_type = row.get(2)?;
        Ok(RawRow {
            id: row.get(0)?,
            content: row.get(1)?,
            content_type,
            byte_size: row.get(3)?,
            created_at: row.get(4)?,
            label: row.get(5)?,
        })
    })?;
    rows.collect()
}

/// `Connection::prepare` and `Statement::exists`: whether a query has a row.
/// Nothing is claimed of the outcome.
#[verifier::external_body]
pub(crate) fn row_exists(conn: &Connection, sql: &str, values: &Vec<Value>) -> (r: Result<
    bool,
    rusqlite::Error,
>) {
    conn.prepare(sql)?.exists(rusqlite::params_from_iter(values.iter()))
}

/// `Connection::query_row` and `Row::get`: runs a query that takes no values
/// and hands out the first column of its first row as an integer. Nothing is
/// claimed of the outcome.
#[verifier::external_body]
pub(crate) fn query_integer(conn: &Connection, sql: &str) -> (r: Result<i64, rusqlite::Error>) {
    conn.query_row(sql, [], |row| row.get(0))
}

/// The `Display` of `rusqlite::Error`, and whether the error is its variant
/// `QueryReturnedNoRows`. Nothing is claimed of either.
#[verifier::external_body]
pub(crate) fn describe(e: rusqlite::Error) -> (r: SqlFailure) {
    SqlFailure { no_rows: matches!(e, rusqlite::Error::QueryReturnedNoRows), message: e.to_string() }
}

} // verus!
