//! The rules of the commands: what is stored, what is skipped and how
//! entries are shown.

use vstd::prelude::*;
use std::str::FromStr;
use vstd::string::StringExecFns;
use vstd::string::StrSliceExecFns;
use rusqlite::Connection;
use crate::clock::{is_rfc3339, local_time, now_rfc3339, MINUTE_FORMAT};
use crate::db;
use crate::models::{ClipEntry, ClipEntryView, ClipmError, ClipmErrorView, ContentType};
use crate::rows::{
    admits, admits_all, entry_views, is_answer, is_answer_for_days, missing_id_text,
};
use crate::sql::chosen_filters;
use crate::text::{decimal, digit, opt_str, opt_text, push_char, push_decimal, trim, trimmed};

verus! {

/// The text with every line break replaced by a space.
pub open spec fn single_line(s: Seq<char>) -> Seq<char> {
    s.map_values(|c: char| if c == '\n' { ' ' } else { c })
}

/// The preview of a text in at most `max_chars` characters: the text on one
/// line where it fits, else its first `max_chars - 1` characters and an
/// ellipsis.
pub open spec fn truncated(s: Seq<char>, max_chars: nat) -> Seq<char> {
    let line = single_line(s);
    if line.len() <= max_chars {
        line
    } else {
        line.take(max_chars - 1).push('\u{2026}')
    }
}

/// Shortens a text to a one-line preview of at most `max_chars` characters.
/// Characters are counted, not bytes.
pub fn truncate(s: &str, max_chars: usize) -> (r: String)
    requires
        max_chars > 0 || s@.len() == 0,
    ensures
        r@ == truncated(s@, max_chars as nat),
{
    broadcast use vstd::string::group_string_axioms;

    let total = s.unicode_len();
    let keep = if total <= max_chars {
        total
    } else {
        max_chars - 1
    };
    let mut out = String::new();
    let mut taken: usize = 0;
    for c in it: s.chars()
        invariant
            it.seq() == s@,
            keep <= s@.len(),
            taken == if it.index() <= keep { it.index() } else { keep as int },
            out@ == single_line(s@).take(taken as int),
    {
        if taken < keep {
            let shown = if c == '\n' {
                ' '
            } else {
                c
            };
            push_char(&mut out, shown);
            taken = taken + 1;
        }
    }
    if total > max_chars {
        push_char(&mut out, '\u{2026}');
    } else {
    }
    out
}

/// `n / d` rounded to the nearest integer, a tie going to the even one.
pub open spec fn round_half_even(n: nat, d: nat) -> nat {
    let q = n / d;
    let r = n % d;
    if 2 * r > d || (2 * r == d && q % 2 == 1) {
        q + 1
    } else {
        q
    }
}

/// The distance between neighbouring double-precision numbers at `n`: 1 below
/// 2^53, and twice as much for each further bit.
pub open spec fn double_step(n: nat) -> nat
    decreases n,
{
    if n < 0x20_0000_0000_0000 {
        1
    } else {
        2 * double_step(n / 2)
    }
}

/// The double-precision number nearest to `n`, a tie going to the even
/// significand.
pub open spec fn nearest_double(n: nat) -> nat {
    round_half_even(n, double_step(n)) * double_step(n)
}

/// A number of tenths written with one decimal place.
pub open spec fn one_decimal(tenths: nat) -> Seq<char> {
    decimal(tenths / 10).push('.').push(digit((tenths % 10) as int))
}

/// A size in bytes as shown to the user: plain bytes below 1024, else KB or
/// MB with one decimal place. The KB and MB values are those of
/// double-precision arithmetic, rounded half to even.
pub open spec fn size_text(bytes: nat) -> Seq<char> {
    if bytes < 1024 {
        decimal(bytes) + " B"@
    } else if bytes < 1024 * 1024 {
        one_decimal(round_half_even(bytes * 10, 1024)) + " KB"@
    } else {
        one_decimal(round_half_even(nearest_double(bytes) * 10, 1024 * 1024)) + " MB"@
    }
}

fn rounded_quotient(n: u128, d: u128) -> (q: u128)
    requires
        0 < d <= 0x1_0000_0000_0000_0000,
        n <= 0x100_0000_0000_0000_0000,
    ensures
        q == round_half_even(n as nat, d as nat),
        q <= n / d + 1,
{
    let q = n / d;
    let r = n % d;
    if 2 * r > d || (2 * r == d && q % 2 == 1) {
        q + 1
    } else {
        q
    }
}

fn step_of(n: u64) -> (s: u64)
    ensures
        s == double_step(n as nat),
        1 <= s < 4096,
        n < 0x20_0000_0000_0000 ==> s == 1,
        n >= 0x20_0000_0000_0000 ==> s * 0x10_0000_0000_0000 <= n,
    decreases n,
{
    if n < 0x20_0000_0000_0000 {
        1
    } else {
        let half = step_of(n / 2);
        2 * half
    }
}

fn push_one_decimal(out: &mut String, tenths: u64)
    ensures
        final(out)@ == old(out)@ + one_decimal(tenths as nat),
{
    push_decimal(out, tenths / 10);
    push_char(out, '.');
    let d: u8 = (tenths % 10) as u8;
    push_char(out, (48u8 + d) as char);
}

/// Formats a size in bytes for the user.
pub fn format_size(bytes: usize) -> (r: String)
    ensures
        r@ == size_text(bytes as nat),
{
    let n: u64 = bytes as u64;
    let mut out = String::new();
    if n < 1024 {
        push_decimal(&mut out, n);
        out.append(" B");
    } else if n < 1024 * 1024 {
        let tenths = rounded_quotient(n as u128 * 10, 1024);
        push_one_decimal(&mut out, tenths as u64);
        out.append(" KB");
    } else {
        let step = step_of(n);
        let significand = rounded_quotient(n as u128, step as u128);
        assert(significand * step <= n + step) by (nonlinear_arith)
            requires
                significand <= n as u128 / step as u128 + 1,
                step > 0,
        ;
        let nearest = significand * (step as u128);
        let tenths = rounded_quotient(nearest * 10, 1024 * 1024);
        push_one_decimal(&mut out, tenths as u64);
        out.append(" MB");
    }
    out
}

/// How a time of capture is shown, given what the calendar made of it: the
/// calendar's text, or the stored text itself where the calendar could not
/// read it.
pub open spec fn shown_timestamp(formatted: Option<Seq<char>>, stored: Seq<char>) -> Seq<char> {
    match formatted {
        Some(text) => text,
        None => stored,
    }
}

/// Picks the text that shows a time of capture.
pub fn timestamp_or_stored(formatted: Option<String>, stored: &str) -> (r: String)
    ensures
        r@ == shown_timestamp(opt_text(formatted), stored@),
{
    match formatted {
        Some(text) => text,
        None => stored.to_owned(),
    }
}

/// Shows an RFC 3339 time of capture as year, month, day, hour and minute in
/// the time zone of the machine. A text that is no RFC 3339 time is shown as
/// it is.
pub fn format_timestamp(rfc3339: &str) -> (r: String)
    ensures
        !is_rfc3339(rfc3339@) ==> r@ == rfc3339@,
{
    timestamp_or_stored(local_time(rfc3339, MINUTE_FORMAT), rfc3339)
}

/// One line of the table that shows the history.
#[derive(Debug, Clone)]
pub struct ClipRow {
    pub id: i64,
    pub preview: String,
    pub label: String,
    pub created_at: String,
}

/// The mathematical value of a [`ClipRow`].
pub struct ClipRowView {
    pub id: int,
    pub preview: Seq<char>,
    pub label: Seq<char>,
    pub created_at: Seq<char>,
}

impl View for ClipRow {
    type V = ClipRowView;

    open spec fn view(&self) -> ClipRowView {
        ClipRowView {
            id: self.id as int,
            preview: self.preview@,
            label: self.label@,
            created_at: self.created_at@,
        }
    }
}

/// The longest preview of a content, in characters.
pub const PREVIEW_CHARS: usize = 60;

/// What is shown in place of the content of an entry: a row of asterisks for
/// a password, whatever it holds, else a preview of the content.
pub open spec fn preview_text(e: ClipEntryView) -> Seq<char> {
    if e.content_type == ContentType::Password {
        "********"@
    } else {
        truncated(e.content, PREVIEW_CHARS as nat)
    }
}

/// What is shown as the label of an entry: the label, or nothing.
pub open spec fn label_text(e: ClipEntryView) -> Seq<char> {
    match e.label {
        Some(l) => l,
        None => Seq::<char>::empty(),
    }
}

/// The line that shows an entry, given the text that shows its time of
/// capture.
pub open spec fn row_of(e: ClipEntryView, created_at: Seq<char>) -> ClipRowView {
    ClipRowView { id: e.id, preview: preview_text(e), label: label_text(e), created_at }
}

/// Makes the line that shows an entry, with `created_at` as the text that
/// shows its time of capture.
pub fn row_with_time(e: &ClipEntry, created_at: String) -> (row: ClipRow)
    ensures
        row@ == row_of(e@, created_at@),
{
    let preview = match e.content_type {
        ContentType::Password => "********".to_owned(),
        ContentType::Text => truncate(e.content.as_str(), PREVIEW_CHARS),
    };
    let label = match &e.label {
        Some(l) => l.clone(),
        None => String::new(),
    };
    ClipRow { id: e.id, preview, label, created_at }
}

/// What `entry_to_row` makes known of the line that shows an entry: all of
/// it but the text that shows a time of capture which the calendar can read.
pub open spec fn shows(row: ClipRowView, e: ClipEntryView) -> bool {
    &&& row.id == e.id
    &&& row.preview == preview_text(e)
    &&& row.label == label_text(e)
    &&& !is_rfc3339(e.created_at) ==> row.created_at == e.created_at
}

/// Makes the line that shows an entry. The content of a password is masked:
/// no part of it is in the line.
pub fn entry_to_row(e: &ClipEntry) -> (row: ClipRow)
    ensures
        shows(row@, e@),
{
    row_with_time(e, format_timestamp(e.created_at.as_str()))
}

/// Whether lines show a list of entries, line by line and in their order.
pub open spec fn show_all(rows: Seq<ClipRow>, entries: Seq<ClipEntryView>) -> bool {
    &&& rows.len() == entries.len()
    &&& forall|i: int| 0 <= i < rows.len() ==> shows((#[trigger] rows[i])@, entries[i])
}

/// Makes the lines that show a list of entries, in their order.
pub fn entries_to_rows(entries: &Vec<ClipEntry>) -> (rows: Vec<ClipRow>)
    ensures
        show_all(rows@, entry_views(entries@)),
{
    let mut rows: Vec<ClipRow> = Vec::new();
    let mut i: usize = 0;
    while i < entries.len()
        invariant
            i <= entries@.len(),
            rows@.len() == i,
            forall|k: int| 0 <= k < rows@.len() ==> shows((#[trigger] rows@[k])@, entries@[k]@),
        decreases entries@.len() - i,
    {
        rows.push(entry_to_row(&entries[i]));
        i = i + 1;
    }
    rows
}

/// The label that an entry is stored with: the label that was given; for a
/// password without one, the label `password`.
pub open spec fn stored_label(given: Option<Seq<char>>, content_type: ContentType) -> Option<
    Seq<char>,
> {
    match given {
        Some(l) => Some(l),
        None => if content_type == ContentType::Password {
            Some("password"@)
        } else {
            None
        },
    }
}

/// The entry that is made of a captured content: its size is the length of
/// the content in UTF-8 bytes, and its id is left to the store.
pub open spec fn captured(
    content: Seq<char>,
    content_type: ContentType,
    given_label: Option<Seq<char>>,
    created_at: Seq<char>,
) -> ClipEntryView {
    ClipEntryView {
        id: 0,
        content,
        content_type,
        byte_size: vstd::utf8::encode_utf8(content).len(),
        created_at,
        label: stored_label(given_label, content_type),
    }
}

/// Makes the entry of a captured content.
pub fn new_entry(
    content: String,
    content_type: ContentType,
    label: Option<String>,
    created_at: String,
) -> (e: ClipEntry)
    ensures
        e@ == captured(content@, content_type, opt_text(label), created_at@),
        content@.len() > 0 ==> e@.wf(),
{
    let label = match label {
        Some(l) => Some(l),
        None => match content_type {
            ContentType::Password => Some("password".to_owned()),
            ContentType::Text => None,
        },
    };
    let byte_size = content.as_str().as_bytes().len();
    ClipEntry { id: 0, content, content_type, byte_size, created_at, label }
}

/// What storing a captured content came to.
#[derive(Debug, Clone)]
pub enum StoreOutcome {
    /// Nothing was stored: the content is that of the newest entry.
    Skipped,
    /// The content was stored.
    Stored { id: i64, byte_size: usize, label: Option<String> },
}

/// The mathematical value of a [`StoreOutcome`].
pub enum StoreOutcomeView {
    Skipped,
    Stored { id: int, byte_size: nat, label: Option<Seq<char>> },
}

impl View for StoreOutcome {
    type V = StoreOutcomeView;

    open spec fn view(&self) -> StoreOutcomeView {
        match self {
            StoreOutcome::Skipped => StoreOutcomeView::Skipped,
            StoreOutcome::Stored { id, byte_size, label } => StoreOutcomeView::Stored {
                id: *id as int,
                byte_size: *byte_size as nat,
                label: opt_text(*label),
            },
        }
    }
}

/// Whether a captured content is left out of the history: it is where the
/// newest entry holds exactly it, unless it is a password. A password is
/// stored whatever the newest entry holds.
pub open spec fn is_skipped(content_type: ContentType, duplicate: bool) -> bool {
    content_type != ContentType::Password && duplicate
}

/// Decides whether a captured content is left out of the history, given
/// whether the newest entry holds exactly it.
pub fn skips(content_type: ContentType, duplicate: bool) -> (skip: bool)
    ensures
        skip == is_skipped(content_type, duplicate),
{
    match content_type {
        ContentType::Password => false,
        ContentType::Text => duplicate,
    }
}

/// What is said of an entry that was stored under the id `id`: the id, the
/// size of the entry and its label.
pub open spec fn stored_as(e: ClipEntryView, id: int) -> StoreOutcomeView {
    StoreOutcomeView::Stored { id, byte_size: e.byte_size, label: e.label }
}

/// Makes the outcome of storing `entry`, given the id that the store gave it.
pub fn stored(entry: ClipEntry, id: i64) -> (outcome: StoreOutcome)
    ensures
        outcome@ == stored_as(entry@, id as int),
{
    StoreOutcome::Stored { id, byte_size: entry.byte_size, label: entry.label }
}

/// What storing an entry comes to, given whether the newest entry holds its
/// content and the id that the store gives it: nothing is stored where the
/// content is skipped; else the entry is stored under that id.
pub open spec fn store_outcome(e: ClipEntryView, duplicate: bool, id: int) -> StoreOutcomeView {
    if is_skipped(e.content_type, duplicate) {
        StoreOutcomeView::Skipped
    } else {
        stored_as(e, id)
    }
}

/// Stores a captured content under the content type that `content_type_str`
/// names.
///
/// An empty content is `EmptyClipboard`. A content type that is neither
/// `text` nor `password` is `InvalidInput`, and the store is not touched. A
/// content other than a password is skipped where the newest entry holds
/// exactly it; a password is stored whatever the newest entry holds, and the
/// store is not asked what the newest entry holds. A password without a
/// label gets the label `password`.
///
/// The store decides whether the newest entry holds the content and which id
/// the new entry gets: `skips` says what follows from the first, `new_entry`
/// which entry is handed to the store, and `stored` what is made of the
/// second.
pub fn store(
    conn: &Connection,
    content: String,
    label: Option<String>,
    content_type_str: &str,
) -> (r: Result<StoreOutcome, ClipmError>)
    ensures
        content@.len() == 0 ==> (r matches Err(e) && e@ == ClipmErrorView::EmptyClipboard),
        content@.len() > 0 ==> match ContentType::parsed(content_type_str@) {
            None => r matches Err(e) && e@ == ClipmErrorView::InvalidInput(
                ContentType::parse_error(content_type_str@),
            ),
            Some(content_type) => match r {
                Ok(outcome) => {
                    &&& exists|duplicate: bool, id: int, created_at: Seq<char>|
                        outcome@ == #[trigger] store_outcome(
                            captured(content@, content_type, opt_text(label), created_at),
                            duplicate,
                            id,
                        )
                    &&& outcome is Skipped ==> content_type != ContentType::Password
                    &&& outcome matches StoreOutcome::Stored { id, byte_size, label: stored } ==> {
                        &&& byte_size == vstd::utf8::encode_utf8(content@).len()
                        &&& opt_text(stored) == stored_label(opt_text(label), content_type)
                    }
                },
                Err(e) => e@ is Database,
            },
        },
{
    if content.as_str().is_empty() {
        return Err(ClipmError::EmptyClipboard);
    }
    let content_type = match ContentType::from_str(content_type_str) {
        Ok(t) => t,
        Err(reason) => {
            return Err(ClipmError::InvalidInput(reason));
        },
    };
    let duplicate = match content_type {
        ContentType::Password => false,
        ContentType::Text => match db::is_duplicate(conn, content.as_str()) {
            Ok(answer) => answer,
            Err(e) => {
                return Err(e);
            },
        },
    };
    let ghost shown = captured(content@, content_type, opt_text(label), Seq::<char>::empty());
    if skips(content_type, duplicate) {
        assert(StoreOutcomeView::Skipped == store_outcome(shown, duplicate, 0));
        return Ok(StoreOutcome::Skipped);
    }
    let entry = new_entry(content, content_type, label, now_rfc3339());
    match db::insert(conn, &entry) {
        Ok(id) => {
            let ghost made = entry@;
            let outcome = stored(entry, id);
            assert(outcome@ == store_outcome(made, duplicate, id as int));
            Ok(outcome)
        },
        Err(e) => Err(e),
    }
}

/// The entry to copy back: the one with the given id, or the newest one
/// where no id is given.
pub fn get(conn: &Connection, id: Option<i64>) -> (r: Result<ClipEntry, ClipmError>)
    ensures
        r matches Ok(entry) ==> (id matches Some(wanted) ==> entry@.id == wanted),
        r matches Err(e) ==> e@ is Database || e@ == ClipmErrorView::NotFound(
            match id {
                Some(wanted) => missing_id_text(wanted as int),
                None => "No entries in history"@,
            },
        ),
{
    match id {
        Some(id) => db::get_by_id(conn, id),
        None => db::get_most_recent(conn),
    }
}

/// Whether lines show what can be the answer to a query: whether they show,
/// entry by entry, a list of entries that holds at most `limit` entries and
/// none that fails a filter, and that goes from the newest to the oldest
/// where the query asks for that order. The days stand for some time,
/// whatever the time is now.
pub open spec fn show_an_answer(
    rows: Seq<ClipRow>,
    limit: usize,
    label: Option<Seq<char>>,
    days: Option<u32>,
    kind: Option<Seq<char>>,
    ordered: bool,
) -> bool {
    exists|entries: Seq<ClipEntryView>|
        {
            &&& #[trigger] show_all(rows, entries)
            &&& is_answer_for_days(entries, limit, label, days, kind, ordered)
        }
}

/// The lines that show a page of the history: the lines of the entries that
/// the store lists for the query, entry by entry. So there are at most
/// `limit` of them, from the newest entry to the oldest, each with the label
/// that was asked for where one was. See [`db::list`].
pub fn list(
    conn: &Connection,
    limit: usize,
    offset: usize,
    label: Option<&str>,
    days: Option<u32>,
    content_type: Option<&str>,
) -> (r: Result<Vec<ClipRow>, ClipmError>)
    ensures
        r matches Ok(rows) ==> show_an_answer(
            rows@,
            limit,
            opt_str(label),
            days,
            opt_str(content_type),
            true,
        ),
        r matches Ok(rows) ==> {
            &&& rows@.len() <= limit
            &&& forall|i: int, j: int| 0 <= i < j < rows@.len() ==> rows@[i]@.id > rows@[j]@.id
            &&& label matches Some(asked) ==> forall|i: int|
                0 <= i < rows@.len() ==> (#[trigger] rows@[i])@.label == asked@
        },
        r matches Err(e) ==> e@ is Database,
{
    match db::list(conn, limit, offset, label, days, content_type) {
        Ok(entries) => {
            let rows = entries_to_rows(&entries);
            proof {
                // The entries are an answer for some time in place of the days; the
                // lines keep their ids and their labels.
                let found = entry_views(entries@);
                assert(show_all(rows@, found));
                assert(show_an_answer(
                    rows@,
                    limit,
                    opt_str(label),
                    days,
                    opt_str(content_type),
                    true,
                ));
                let since = choose|since: Option<Seq<char>>|
                    is_answer(
                        found,
                        limit,
                        #[trigger] chosen_filters(opt_str(label), since, opt_str(content_type)),
                        true,
                    );
                let filters = chosen_filters(opt_str(label), since, opt_str(content_type));
                assert forall|i: int, j: int| 0 <= i < j < rows@.len() implies rows@[i]@.id
                    > rows@[j]@.id by {
                    assert(found[i].id > found[j].id);
                }
                if let Some(asked) = label {
                    assert forall|i: int| 0 <= i < rows@.len() implies (#[trigger] rows@[i])@.label
                        == asked@ by {
                        assert(admits(filters[0], found[i]));
                    }
                }
            }
            Ok(rows)
        },
        Err(e) => Err(e),
    }
}

/// The lines that show the matches of a search: the lines of the entries
/// that the store finds for the query, entry by entry, at most `limit` of
/// them. See [`db::search`].
pub fn search(
    conn: &Connection,
    query: &str,
    limit: usize,
    days: Option<u32>,
    content_type: Option<&str>,
) -> (r: Result<Vec<ClipRow>, ClipmError>)
    ensures
        trimmed(query@).len() == 0 ==> (r matches Err(e) && e@ == db::empty_query_error()),
        trimmed(query@).len() > 0 ==> (r matches Err(e) ==> e@ is Database),
        r matches Ok(rows) ==> show_an_answer(
            rows@,
            limit,
            None,
            days,
            opt_str(content_type),
            false,
        ),
        r matches Ok(rows) ==> rows@.len() <= limit,
{
    match db::search(conn, query, limit, days, content_type) {
        Ok(entries) => {
            let rows = entries_to_rows(&entries);
            proof {
                assert(show_all(rows@, entry_views(entries@)));
                assert(show_an_answer(rows@, limit, None, days, opt_str(content_type), false));
            }
            Ok(rows)
        },
        Err(e) => Err(e),
    }
}

/// Whether an answer confirms: whether it is `y` or `Y`, white space around
/// it aside.
pub open spec fn is_yes(answer: Seq<char>) -> bool {
    trimmed(answer) == seq!['y'] || trimmed(answer) == seq!['Y']
}

/// Whether the answer to the question that precedes the clearing of the
/// history confirms it.
pub fn confirmed(answer: &str) -> (r: bool)
    ensures
        r == is_yes(answer@),
{
    let kept = trim(answer);
    if kept.unicode_len() == 1 {
        let c = kept.get_char(0);
        assert(kept@ == seq![c]);
        c == 'y' || c == 'Y'
    } else {
        false
    }
}

} // verus!
