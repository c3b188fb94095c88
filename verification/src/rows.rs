//! What the rows of the store mean: how a row is decoded into an entry, and
//! what is asked of the rows that answer a query.
//!
//! The store is not taken at its word. A row that cannot be decoded, and an
//! answer that holds what was not asked for, is a fault of the store and an
//! error, never a guess.

use vstd::prelude::*;
use vstd::string::StringExecFns;
use std::str::FromStr;
use crate::models::{
    lemma_content_type_round_trip, ClipEntry, ClipEntryView, ClipmError, ClipmErrorView, ContentType,
};
use crate::sql::{
    chosen_filters, filter_views, insert_statement_spec, Filter, FilterView, SqlValueView,
};
use crate::sqlite::{RawRow, RawRowView, SqlFailure};
use crate::text::{is_text_le, push_signed_decimal, signed_decimal, str_eq, text_le};

verus! {

/// The result of an operation on one entry, as mathematical values.
pub open spec fn entry_result(r: Result<ClipEntry, ClipmError>) -> Result<
    ClipEntryView,
    ClipmErrorView,
> {
    match r {
        Ok(e) => Ok(e@),
        Err(e) => Err(e@),
    }
}

/// The views of a list of entries.
pub open spec fn entry_views(entries: Seq<ClipEntry>) -> Seq<ClipEntryView> {
    entries.map_values(|e: ClipEntry| e@)
}

/// The views of a list of rows.
pub open spec fn row_views(rows: Seq<RawRow>) -> Seq<RawRowView> {
    rows.map_values(|row: RawRow| row@)
}

/// The result of an operation on several entries, as mathematical values.
pub open spec fn entries_result(r: Result<Vec<ClipEntry>, ClipmError>) -> Result<
    Seq<ClipEntryView>,
    ClipmErrorView,
> {
    match r {
        Ok(es) => Ok(entry_views(es@)),
        Err(e) => Err(e@),
    }
}

/// The words for a stored content type that names no variant: those of a
/// failed conversion of the third column, which holds text.
pub open spec fn corrupt_type_text(stored: Seq<char>) -> Seq<char> {
    "Conversion error from type Text at index: 2, "@ + ContentType::parse_error(stored)
}

/// The entry that a row holds. A stored content type that names no variant
/// is corruption of the database and an error, never a default. The stored
/// size is taken as an unsigned machine word.
pub open spec fn row_entry(row: RawRowView) -> Result<ClipEntryView, ClipmErrorView> {
    match ContentType::parsed(row.content_type) {
        Some(t) => Ok(
            ClipEntryView {
                id: row.id,
                content: row.content,
                content_type: t,
                byte_size: ((row.byte_size as i64) as usize) as nat,
                created_at: row.created_at,
                label: row.label,
            },
        ),
        None => Err(ClipmErrorView::Database(corrupt_type_text(row.content_type))),
    }
}

/// Decodes one row of the table of entries.
pub fn row_to_entry(row: RawRow) -> (r: Result<ClipEntry, ClipmError>)
    ensures
        entry_result(r) == row_entry(row@),
{
    match ContentType::from_str(row.content_type.as_str()) {
        Ok(content_type) => Ok(
            ClipEntry {
                id: row.id,
                content: row.content,
                content_type,
                byte_size: #[verifier::truncate] (row.byte_size as usize),
                created_at: row.created_at,
                label: row.label,
            },
        ),
        Err(reason) => {
            let mut words = "Conversion error from type Text at index: 2, ".to_owned();
            words.append(reason.as_str());
            Err(ClipmError::Database(words))
        },
    }
}

/// The entries that a list of rows holds, in their order; where a row
/// cannot be decoded, the error of the first such row.
pub open spec fn rows_entries(rows: Seq<RawRowView>) -> Result<Seq<ClipEntryView>, ClipmErrorView>
    decreases rows.len(),
{
    if rows.len() == 0 {
        Ok(Seq::<ClipEntryView>::empty())
    } else {
        match rows_entries(rows.drop_last()) {
            Err(e) => Err(e),
            Ok(entries) => match row_entry(rows.last()) {
                Ok(entry) => Ok(entries.push(entry)),
                Err(e) => Err(e),
            },
        }
    }
}

proof fn lemma_first_failure_stands(rows: Seq<RawRowView>, k: int)
    requires
        0 <= k <= rows.len(),
        rows_entries(rows.take(k)) is Err,
    ensures
        rows_entries(rows) == rows_entries(rows.take(k)),
    decreases rows.len() - k,
{
    if k < rows.len() {
        assert(rows.drop_last().take(k) == rows.take(k));
        lemma_first_failure_stands(rows.drop_last(), k);
    } else {
        assert(rows.take(k) == rows);
    }
}

/// Decodes the rows of a query, in their order, and stops at the first row
/// that cannot be decoded.
pub fn rows_to_entries(rows: Vec<RawRow>) -> (r: Result<Vec<ClipEntry>, ClipmError>)
    ensures
        entries_result(r) == rows_entries(row_views(rows@)),
        r matches Err(e) ==> e@ is Database,
{
    let ghost all = row_views(rows@);
    let mut entries: Vec<ClipEntry> = Vec::new();
    assert(entry_views(entries@) == Seq::<ClipEntryView>::empty());
    for row in it: rows
        invariant
            it.seq() == rows@,
            all == row_views(rows@),
            rows_entries(all.take(it.index() as int)) == Ok::<Seq<ClipEntryView>, ClipmErrorView>(
                entry_views(entries@),
            ),
    {
        let ghost next = all.take(it.index() + 1);
        assert(next.drop_last() == all.take(it.index() as int));
        match row_to_entry(row) {
            Ok(entry) => {
                let ghost before = entries@;
                entries.push(entry);
                assert(entry_views(entries@) == entry_views(before).push(entry@));
            },
            Err(e) => {
                proof {
                    lemma_first_failure_stands(all, it.index() + 1);
                }
                return Err(e);
            },
        }
    }
    assert(all.take(rows@.len() as int) == all);
    Ok(entries)
}

/// What a query for one row came to.
#[derive(Debug, Clone)]
pub enum Lookup {
    /// The row that the query found.
    Found(RawRow),
    /// The query ran and found no row.
    Missing,
    /// The store failed; its words.
    Failed(String),
}

/// The error for a fault of the store: the store's own words, under
/// `Database`.
pub fn fault_of(failure: SqlFailure) -> (r: ClipmError)
    ensures
        r@ == ClipmErrorView::Database(failure.message@),
{
    ClipmError::Database(failure.message)
}

/// What a query for one row came to, given what the store answered: the row
/// that it handed out; nothing, where the store says that the query has no
/// row; else the failure of the store, in its words.
pub open spec fn classified(outcome: Result<RawRow, SqlFailure>) -> Lookup {
    match outcome {
        Ok(row) => Lookup::Found(row),
        Err(failure) => if failure.no_rows {
            Lookup::Missing
        } else {
            Lookup::Failed(failure.message)
        },
    }
}

/// Tells a query that found no row from a failure of the store.
pub fn lookup_of(outcome: Result<RawRow, SqlFailure>) -> (found: Lookup)
    ensures
        found == classified(outcome),
{
    match outcome {
        Ok(row) => Lookup::Found(row),
        Err(failure) => {
            if failure.no_rows {
                Lookup::Missing
            } else {
                Lookup::Failed(failure.message)
            }
        },
    }
}

/// The entry that a query for one row gives: the entry of the row it found;
/// `NotFound` with the given words where it found none; `Database` with the
/// store's words where the store failed.
pub open spec fn looked_up(found: Lookup, missing: Seq<char>) -> Result<
    ClipEntryView,
    ClipmErrorView,
> {
    match found {
        Lookup::Found(row) => row_entry(row@),
        Lookup::Missing => Err(ClipmErrorView::NotFound(missing)),
        Lookup::Failed(words) => Err(ClipmErrorView::Database(words@)),
    }
}

/// Turns what a query for one row came to into an entry or an error.
pub fn entry_of_lookup(found: Lookup, missing: String) -> (r: Result<ClipEntry, ClipmError>)
    ensures
        entry_result(r) == looked_up(found, missing@),
{
    match found {
        Lookup::Found(row) => row_to_entry(row),
        Lookup::Missing => Err(ClipmError::NotFound(missing)),
        Lookup::Failed(words) => Err(ClipmError::Database(words)),
    }
}

/// The words for an id that no entry has.
pub open spec fn missing_id_text(id: int) -> Seq<char> {
    "No entry with id "@ + signed_decimal(id)
}

pub(crate) fn missing_id(id: i64) -> (words: String)
    ensures
        words@ == missing_id_text(id as int),
{
    let mut words = "No entry with id ".to_owned();
    push_signed_decimal(&mut words, id);
    words
}

/// What a change aimed at the entry with one id came to: `NotFound` where it
/// changed no row, success where it changed one.
pub open spec fn change_outcome(changed: nat, id: int) -> Result<(), ClipmErrorView> {
    if changed == 0 {
        Err(ClipmErrorView::NotFound(missing_id_text(id)))
    } else {
        Ok(())
    }
}

/// Judges a change aimed at the entry with id `id` by the number of rows
/// that it changed.
pub fn changed_or_missing(changed: usize, id: i64) -> (r: Result<(), ClipmError>)
    ensures
        match r {
            Ok(()) => change_outcome(changed as nat, id as int) == Ok::<(), ClipmErrorView>(()),
            Err(e) => change_outcome(changed as nat, id as int) == Err::<(), ClipmErrorView>(e@),
        },
{
    if changed == 0 {
        Err(ClipmError::NotFound(missing_id(id)))
    } else {
        Ok(())
    }
}

/// The number of rows that the store counted, as a size: the count itself
/// where it is one, which a count of rows is.
pub fn counted(count: i64) -> (n: usize)
    ensures
        n == count as usize,
        0 <= count <= usize::MAX ==> n == count,
{
    #[verifier::truncate]
    (count as usize)
}

/// The words for an answer of the store that holds what was not asked for.
pub const UNASKED: &'static str = "The store returned an entry that was not asked for";

/// Whether an entry meets a filter: its label is the one asked for; its time
/// of capture is not before the one asked for, as texts compare; the name of
/// its type is the one asked for.
pub open spec fn admits(f: FilterView, e: ClipEntryView) -> bool {
    match f {
        FilterView::Label(label) => e.label == Some(label),
        FilterView::Since(time) => text_le(time, e.created_at),
        FilterView::Kind(name) => e.content_type.name() == name,
    }
}

/// Whether an entry meets every filter of a list.
pub open spec fn admits_all(filters: Seq<FilterView>, e: ClipEntryView) -> bool {
    forall|i: int| 0 <= i < filters.len() ==> admits(#[trigger] filters[i], e)
}

/// Whether a list of entries goes from the newest to the oldest: the ids fall
/// from each entry to every later one.
pub open spec fn newest_first(entries: Seq<ClipEntryView>) -> bool {
    forall|i: int, j: int| 0 <= i < j < entries.len() ==> entries[i].id > entries[j].id
}

/// Whether a list of entries can be the answer to a query: it holds at most
/// `limit` entries, each of them meets every filter, and, where the query
/// asks for the newest first, they come in that order.
pub open spec fn is_answer(
    entries: Seq<ClipEntryView>,
    limit: usize,
    filters: Seq<FilterView>,
    ordered: bool,
) -> bool {
    &&& entries.len() <= limit
    &&& forall|i: int| 0 <= i < entries.len() ==> admits_all(filters, #[trigger] entries[i])
    &&& ordered ==> newest_first(entries)
}

/// Whether a list of entries can be the answer to a query that asks for the
/// entries of the last `days` days, whatever the time is now: whether it is
/// an answer with some time in place of the days, and with no time where no
/// days are given.
pub open spec fn is_answer_for_days(
    entries: Seq<ClipEntryView>,
    limit: usize,
    label: Option<Seq<char>>,
    days: Option<u32>,
    kind: Option<Seq<char>>,
    ordered: bool,
) -> bool {
    exists|since: Option<Seq<char>>|
        {
            &&& days is None ==> since is None
            &&& is_answer(entries, limit, #[trigger] chosen_filters(label, since, kind), ordered)
        }
}

fn meets(f: &Filter, e: &ClipEntry) -> (r: bool)
    ensures
        r == admits(f@, e@),
{
    match f {
        Filter::Label(label) => match &e.label {
            Some(own) => str_eq(own.as_str(), label.as_str()),
            None => false,
        },
        Filter::Since(time) => is_text_le(time.as_str(), e.created_at.as_str()),
        Filter::Kind(name) => str_eq(e.content_type.to_string().as_str(), name.as_str()),
    }
}

fn meets_all(filters: &Vec<Filter>, e: &ClipEntry) -> (r: bool)
    ensures
        r == admits_all(filter_views(filters@), e@),
{
    let mut i: usize = 0;
    while i < filters.len()
        invariant
            i <= filters@.len(),
            forall|k: int| 0 <= k < i ==> admits(#[trigger] filter_views(filters@)[k], e@),
        decreases filters@.len() - i,
    {
        if !meets(&filters[i], e) {
            assert(!admits(filter_views(filters@)[i as int], e@));
            return false;
        }
        i = i + 1;
    }
    true
}

/// Checks whether a list of entries can be the answer to a query.
pub fn check_answer(
    entries: &Vec<ClipEntry>,
    limit: usize,
    filters: &Vec<Filter>,
    ordered: bool,
) -> (r: bool)
    ensures
        r == is_answer(entry_views(entries@), limit, filter_views(filters@), ordered),
{
    if entries.len() > limit {
        return false;
    }
    let ghost all = entry_views(entries@);
    let mut i: usize = 0;
    while i < entries.len()
        invariant
            i <= entries@.len(),
            all == entry_views(entries@),
            forall|k: int| 0 <= k < i ==> admits_all(filter_views(filters@), #[trigger] all[k]),
            ordered ==> newest_first(all.take(i as int)),
        decreases entries@.len() - i,
    {
        if !meets_all(filters, &entries[i]) {
            return false;
        }
        if ordered && i > 0 && entries[i - 1].id <= entries[i].id {
            assert(all[i - 1].id <= all[i as int].id);
            return false;
        }
        proof {
            // An entry that is older than the one before it is older than all before it.
            let before = all.take(i as int);
            let after = all.take(i + 1);
            if ordered {
                assert forall|a: int, b: int| 0 <= a < b < after.len() implies after[a].id
                    > after[b].id by {
                    if b == i && a < i - 1 {
                        assert(before[a].id > before[i - 1].id);
                    }
                }
            }
        }
        i = i + 1;
    }
    assert(all.take(i as int) == all);
    true
}

/// The answer that a list of rows makes to a query: the entries that the
/// rows hold, where every row can be decoded and the entries can be the
/// answer; else `Database`.
pub open spec fn answer(
    rows: Seq<RawRowView>,
    limit: usize,
    filters: Seq<FilterView>,
    ordered: bool,
) -> Result<Seq<ClipEntryView>, ClipmErrorView> {
    match rows_entries(rows) {
        Err(e) => Err(e),
        Ok(entries) => if is_answer(entries, limit, filters, ordered) {
            Ok(entries)
        } else {
            Err(ClipmErrorView::Database(UNASKED@))
        },
    }
}

/// Decodes the rows that the store returned for a query and checks that they
/// can be its answer.
pub fn rows_to_answer(rows: Vec<RawRow>, limit: usize, filters: &Vec<Filter>, ordered: bool) -> (r:
    Result<Vec<ClipEntry>, ClipmError>)
    ensures
        entries_result(r) == answer(row_views(rows@), limit, filter_views(filters@), ordered),
        r matches Err(e) ==> e@ is Database,
        r matches Ok(entries) ==> is_answer(
            entry_views(entries@),
            limit,
            filter_views(filters@),
            ordered,
        ),
{
    match rows_to_entries(rows) {
        Ok(entries) => {
            if check_answer(&entries, limit, filters, ordered) {
                Ok(entries)
            } else {
                Err(ClipmError::Database(UNASKED.to_owned()))
            }
        },
        Err(e) => Err(e),
    }
}

/// The entry that a query for the entry with one id gives: as `looked_up`,
/// but a row with another id is `Database`.
pub open spec fn looked_up_by_id(found: Lookup, id: int) -> Result<ClipEntryView, ClipmErrorView> {
    match looked_up(found, missing_id_text(id)) {
        Ok(e) => if e.id == id {
            Ok(e)
        } else {
            Err(ClipmErrorView::Database(UNASKED@))
        },
        Err(e) => Err(e),
    }
}

/// Turns what a query for the entry with id `id` came to into that entry or
/// an error.
pub fn entry_with_id(found: Lookup, id: i64) -> (r: Result<ClipEntry, ClipmError>)
    ensures
        entry_result(r) == looked_up_by_id(found, id as int),
{
    match entry_of_lookup(found, missing_id(id)) {
        Ok(entry) => {
            if entry.id == id {
                Ok(entry)
            } else {
                Err(ClipmError::Database(UNASKED.to_owned()))
            }
        },
        Err(e) => Err(e),
    }
}

/// The text of a bound value, where it is one.
pub open spec fn bound_text(v: SqlValueView) -> Seq<char> {
    match v {
        SqlValueView::Text(t) => t,
        _ => Seq::<char>::empty(),
    }
}

/// The row that holds the values bound by an insert statement, column by
/// column, under the id that the store gave it.
pub open spec fn stored_row(id: int, bound: Seq<SqlValueView>) -> RawRowView {
    RawRowView {
        id,
        content: bound_text(bound[0]),
        content_type: bound_text(bound[1]),
        byte_size: match bound[2] {
            SqlValueView::Integer(n) => n,
            _ => 0,
        },
        created_at: bound_text(bound[3]),
        label: match bound[4] {
            SqlValueView::Text(t) => Some(t),
            _ => None,
        },
    }
}

/// What is written is what is read: the row that holds the values bound by
/// the insert statement of an entry decodes to that entry, under the id of
/// the row.
pub proof fn lemma_inserted_entry_reads_back(e: ClipEntry, id: int)
    ensures
        row_entry(stored_row(id, insert_statement_spec(e@).params)) == Ok::<
            ClipEntryView,
            ClipmErrorView,
        >(e@.with_id(id)),
{
    lemma_content_type_round_trip(e.content_type);
    let size = e.byte_size;
    assert(((size as i64) as usize) == size) by (bit_vector);
}

} // verus!
