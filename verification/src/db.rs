//! The storage engine: one SQLite database that holds the entries and a
//! full-text index over them.

use vstd::prelude::*;
use rusqlite::Connection;
use crate::clock::cutoff_rfc3339;
use crate::models::{ClipEntry, ClipmError, ClipmErrorView};
use crate::rows::{
    changed_or_missing, counted, entry_of_lookup, entry_views, entry_with_id, fault_of, is_answer,
    is_answer_for_days, lookup_of, missing_id_text, rows_to_answer, Lookup,
};
use crate::schema::{migration_script, pending_migrations, PRAGMAS, SCHEMA_VERSION, VERSION_SQL};
use crate::sql::{
    choose_filters, chosen_filters, delete_statement, duplicate_statement, escape_quotes,
    insert_statement, list_statement, quotes_doubled, search_statement, select_by_id_statement,
    select_newest_statement, update_label_statement, Statement, COUNT_SQL, DELETE_ALL_SQL,
};
use crate::sqlite::{
    bind, describe, execute, execute_batch, last_insert_rowid, open_connection, query_integer,
    query_row, query_rows, row_exists,
};
use crate::text::{opt_str, opt_text, trim, trimmed};

verus! {

/// The error for a fault of the store: the store's words, under `Database`.
fn storage_fault(e: rusqlite::Error) -> (r: ClipmError)
    ensures
        r@ is Database,
{
    fault_of(describe(e))
}

/// Brings the schema of a database to the latest version: reads the version
/// that the database records and runs each pending migration in turn. It
/// stops at the first one that fails.
pub fn migrate(conn: &Connection) -> (r: Result<(), ClipmError>)
    ensures
        r matches Err(e) ==> e@ is Database,
{
    let version = match query_integer(conn, VERSION_SQL) {
        Ok(v) => v,
        Err(e) => {
            return Err(storage_fault(e));
        },
    };
    let plan = pending_migrations(version);
    let mut i: usize = 0;
    while i < plan.len()
        invariant
            forall|k: int| 0 <= k < plan@.len() ==> 1 <= #[trigger] plan@[k] <= SCHEMA_VERSION,
        decreases plan.len() - i,
    {
        let step = plan[i];
        match execute_batch(conn, migration_script(step)) {
            Ok(()) => {},
            Err(e) => {
                return Err(storage_fault(e));
            },
        }
        i = i + 1;
    }
    Ok(())
}

/// Opens the database file at `path`, sets the connection up (write-ahead
/// log, a bounded wait on a locked database) and migrates the schema.
pub fn open(path: &std::path::PathBuf) -> (r: Result<Connection, ClipmError>)
    ensures
        r matches Err(e) ==> e@ is Database,
{
    let conn = match open_connection(path) {
        Ok(c) => c,
        Err(e) => {
            return Err(storage_fault(e));
        },
    };
    match execute_batch(&conn, PRAGMAS) {
        Ok(()) => {},
        Err(e) => {
            return Err(storage_fault(e));
        },
    }
    match migrate(&conn) {
        Ok(()) => Ok(conn),
        Err(e) => Err(e),
    }
}

/// Asks the store for one row. What the store answers is told apart by
/// `lookup_of`.
fn lookup(conn: &Connection, statement: &Statement) -> (found: Lookup) {
    match query_row(conn, statement.sql.as_str(), &bind(&statement.params)) {
        Ok(row) => lookup_of(Ok(row)),
        Err(e) => lookup_of(Err(describe(e))),
    }
}

/// Whether the newest entry of the history has exactly this content. An
/// empty history has no duplicate of anything.
pub fn is_duplicate(conn: &Connection, content: &str) -> (r: Result<bool, ClipmError>)
    ensures
        r matches Err(e) ==> e@ is Database,
{
    let statement = duplicate_statement(content);
    match row_exists(conn, statement.sql.as_str(), &bind(&statement.params)) {
        Ok(found) => Ok(found),
        Err(e) => Err(storage_fault(e)),
    }
}

/// Adds an entry to the history and returns the id that the store gave it.
/// The id of `entry` itself is not used. The search index takes the change
/// in the same step, by the triggers of the schema.
pub fn insert(conn: &Connection, entry: &ClipEntry) -> (r: Result<i64, ClipmError>)
    ensures
        r matches Err(e) ==> e@ is Database,
{
    let statement = insert_statement(entry);
    match execute(conn, statement.sql.as_str(), &bind(&statement.params)) {
        Ok(_) => Ok(last_insert_rowid(conn)),
        Err(e) => Err(storage_fault(e)),
    }
}

/// The entry with the given id. Where no entry has it, the error is
/// `NotFound`; a fault of the store is `Database`, never `NotFound`, and so
/// is an answer of the store that holds an entry with another id.
pub fn get_by_id(conn: &Connection, id: i64) -> (r: Result<ClipEntry, ClipmError>)
    ensures
        r matches Ok(entry) ==> entry@.id == id,
        r matches Err(e) ==> e@ is Database || e@ == ClipmErrorView::NotFound(
            missing_id_text(id as int),
        ),
{
    let statement = select_by_id_statement(id);
    entry_with_id(lookup(conn, &statement), id)
}

/// Sets the label of the entry with the given id, or clears it with `None`.
/// Where no entry has the id, the error is `NotFound`.
pub fn update_label(conn: &Connection, id: i64, label: Option<&str>) -> (r: Result<
    (),
    ClipmError,
>)
    ensures
        r matches Err(e) ==> e@ is Database || e@ == ClipmErrorView::NotFound(
            missing_id_text(id as int),
        ),
{
    let statement = update_label_statement(id, label);
    match execute(conn, statement.sql.as_str(), &bind(&statement.params)) {
        Ok(changed) => changed_or_missing(changed, id),
        Err(e) => Err(storage_fault(e)),
    }
}

/// The newest entry of the history. Where the history is empty, the error is
/// `NotFound`.
pub fn get_most_recent(conn: &Connection) -> (r: Result<ClipEntry, ClipmError>)
    ensures
        r matches Err(e) ==> e@ is Database || e@ == ClipmErrorView::NotFound(
            "No entries in history"@,
        ),
{
    let statement = select_newest_statement();
    entry_of_lookup(lookup(conn, &statement), "No entries in history".to_owned())
}

fn cutoff(days: Option<u32>) -> (since: Option<String>)
    ensures
        days is None ==> since is None,
{
    match days {
        Some(d) => cutoff_rfc3339(d),
        None => None,
    }
}

fn as_text(t: &Option<String>) -> (r: Option<&str>)
    ensures
        opt_str(r) == opt_text(*t),
{
    match t {
        Some(s) => Some(s.as_str()),
        None => None,
    }
}

/// Lists entries as `list` does, with the time that no entry may be older
/// than given as a text, where there is one. An answer of the store that
/// holds more than `limit` entries, an entry that fails a filter, or entries
/// out of order, is `Database`.
pub fn list_since(
    conn: &Connection,
    limit: usize,
    offset: usize,
    label: Option<&str>,
    since: Option<&str>,
    content_type: Option<&str>,
) -> (r: Result<Vec<ClipEntry>, ClipmError>)
    ensures
        r matches Ok(entries) ==> is_answer(
            entry_views(entries@),
            limit,
            chosen_filters(opt_str(label), opt_str(since), opt_str(content_type)),
            true,
        ),
        r matches Err(e) ==> e@ is Database,
{
    let filters = choose_filters(label, since, content_type);
    let statement = list_statement(limit, offset, &filters);
    match query_rows(conn, statement.sql.as_str(), &bind(&statement.params)) {
        Ok(rows) => rows_to_answer(rows, limit, &filters, true),
        Err(e) => Err(storage_fault(e)),
    }
}

/// Lists entries, newest first: at most `limit` of them, after `offset` of
/// them are passed over. Every filter that is given has to hold: the label
/// is exactly `label`, the entry is at most `days` days old, the name of its
/// type is exactly `content_type`. Where the calendar cannot go `days` days
/// back, no entry is too old.
pub fn list(
    conn: &Connection,
    limit: usize,
    offset: usize,
    label: Option<&str>,
    days: Option<u32>,
    content_type: Option<&str>,
) -> (r: Result<Vec<ClipEntry>, ClipmError>)
    ensures
        r matches Ok(entries) ==> is_answer_for_days(
            entry_views(entries@),
            limit,
            opt_str(label),
            days,
            opt_str(content_type),
            true,
        ),
        r matches Err(e) ==> e@ is Database,
{
    let since = cutoff(days);
    list_since(conn, limit, offset, label, as_text(&since), content_type)
}

/// The words for a query that holds nothing but white space.
pub open spec fn empty_query_error() -> ClipmErrorView {
    ClipmErrorView::InvalidInput("Empty search query"@)
}

/// The query that is handed to the full-text index: the query without the
/// white space around it, each double quote in it written twice. A query of
/// white space alone is refused.
pub open spec fn index_query(query: Seq<char>) -> Result<Seq<char>, ClipmErrorView> {
    if trimmed(query).len() == 0 {
        Err(empty_query_error())
    } else {
        Ok(quotes_doubled(trimmed(query)))
    }
}

/// Checks a search query and makes it safe for the full-text index.
pub fn prepare_query(query: &str) -> (r: Result<String, ClipmError>)
    ensures
        match r {
            Ok(q) => index_query(query@) == Ok::<Seq<char>, ClipmErrorView>(q@),
            Err(e) => index_query(query@) == Err::<Seq<char>, ClipmErrorView>(e@),
        },
{
    let kept = trim(query);
    if kept.is_empty() {
        Err(ClipmError::InvalidInput("Empty search query".to_owned()))
    } else {
        Ok(escape_quotes(kept))
    }
}

/// Searches as `search` does, with the time that no match may be older than
/// given as a text, where there is one. An answer of the store that holds
/// more than `limit` entries, or an entry that fails a filter, is `Database`.
pub fn search_since(
    conn: &Connection,
    query: &str,
    limit: usize,
    since: Option<&str>,
    content_type: Option<&str>,
) -> (r: Result<Vec<ClipEntry>, ClipmError>)
    ensures
        trimmed(query@).len() == 0 ==> (r matches Err(e) && e@ == empty_query_error()),
        trimmed(query@).len() > 0 ==> (r matches Err(e) ==> e@ is Database),
        r matches Ok(entries) ==> is_answer(
            entry_views(entries@),
            limit,
            chosen_filters(None, opt_str(since), opt_str(content_type)),
            false,
        ),
{
    let escaped = match prepare_query(query) {
        Ok(q) => q,
        Err(e) => {
            return Err(e);
        },
    };
    let filters = choose_filters(None, since, content_type);
    let statement = search_statement(escaped, limit, &filters);
    match query_rows(conn, statement.sql.as_str(), &bind(&statement.params)) {
        Ok(rows) => rows_to_answer(rows, limit, &filters, false),
        Err(e) => Err(storage_fault(e)),
    }
}

/// Searches the full-text index, best match first, at most `limit` entries.
/// The filters narrow the matches as in `list`. The content of a password
/// entry is not in the index: such an entry is found by its label alone. A
/// query of white space alone is `InvalidInput`, and the store is not asked.
pub fn search(
    conn: &Connection,
    query: &str,
    limit: usize,
    days: Option<u32>,
    content_type: Option<&str>,
) -> (r: Result<Vec<ClipEntry>, ClipmError>)
    ensures
        trimmed(query@).len() == 0 ==> (r matches Err(e) && e@ == empty_query_error()),
        trimmed(query@).len() > 0 ==> (r matches Err(e) ==> e@ is Database),
        r matches Ok(entries) ==> is_answer_for_days(
            entry_views(entries@),
            limit,
            None,
            days,
            opt_str(content_type),
            false,
        ),
{
    let since = cutoff(days);
    search_since(conn, query, limit, as_text(&since), content_type)
}

/// Removes the entry with the given id. Where no entry has it, the error is
/// `NotFound` and nothing is removed.
pub fn delete(conn: &Connection, id: i64) -> (r: Result<(), ClipmError>)
    ensures
        r matches Err(e) ==> e@ is Database || e@ == ClipmErrorView::NotFound(
            missing_id_text(id as int),
        ),
{
    let statement = delete_statement(id);
    match execute(conn, statement.sql.as_str(), &bind(&statement.params)) {
        Ok(changed) => changed_or_missing(changed, id),
        Err(e) => Err(storage_fault(e)),
    }
}

/// Removes every entry and returns how many there were.
pub fn clear(conn: &Connection) -> (r: Result<usize, ClipmError>)
    ensures
        r matches Err(e) ==> e@ is Database,
{
    let count = match query_integer(conn, COUNT_SQL) {
        Ok(n) => n,
        Err(e) => {
            return Err(storage_fault(e));
        },
    };
    match execute_batch(conn, DELETE_ALL_SQL) {
        Ok(()) => Ok(counted(count)),
        Err(e) => Err(storage_fault(e)),
    }
}

} // verus!
