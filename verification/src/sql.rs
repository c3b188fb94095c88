//! Statements of the store: their text and the values bound to it.

use vstd::prelude::*;
use vstd::string::StringExecFns;
use crate::models::{ClipEntry, ClipEntryView};
use crate::text::{opt_str, opt_text, push_char};

verus! {

/// A value bound to a placeholder of a statement.
#[derive(Debug, Clone)]
pub enum SqlValue {
    Null,
    Integer(i64),
    Text(String),
}

/// The mathematical value of a [`SqlValue`].
pub enum SqlValueView {
    Null,
    Integer(int),
    Text(Seq<char>),
}

impl View for SqlValue {
    type V = SqlValueView;

    open spec fn view(&self) -> SqlValueView {
        match self {
            SqlValue::Null => SqlValueView::Null,
            SqlValue::Integer(i) => SqlValueView::Integer(*i as int),
            SqlValue::Text(t) => SqlValueView::Text(t@),
        }
    }
}

/// A statement and the values bound to its placeholders, in their order.
#[derive(Debug, Clone)]
pub struct Statement {
    pub sql: String,
    pub params: Vec<SqlValue>,
}

/// The mathematical value of a [`Statement`].
pub struct StatementView {
    pub sql: Seq<char>,
    pub params: Seq<SqlValueView>,
}

impl View for Statement {
    type V = StatementView;

    open spec fn view(&self) -> StatementView {
        StatementView { sql: self.sql@, params: self.params@.map_values(|p: SqlValue| p@) }
    }
}

/// The value that stands for an optional text: the text, or NULL.
pub open spec fn nullable_text(t: Option<Seq<char>>) -> SqlValueView {
    match t {
        Some(s) => SqlValueView::Text(s),
        None => SqlValueView::Null,
    }
}

/// Binds an optional text: the text, or NULL.
pub fn bind_nullable(t: Option<&str>) -> (v: SqlValue)
    ensures
        v@ == nullable_text(opt_str(t)),
{
    match t {
        Some(s) => SqlValue::Text(s.to_owned()),
        None => SqlValue::Null,
    }
}

/// The values of a list of bound values.
pub open spec fn values(params: Seq<SqlValue>) -> Seq<SqlValueView> {
    params.map_values(|p: SqlValue| p@)
}

/// Adds a row; the store gives it its id.
pub const INSERT_SQL: &'static str =
    "INSERT INTO clips (content, content_type, byte_size, created_at, label) VALUES (?1, ?2, ?3, ?4, ?5)";

/// The statement that adds an entry: its content, the name of its type, its
/// size, its time of capture and its label, NULL where it has none. The id is
/// left to the store.
pub open spec fn insert_statement_spec(e: ClipEntryView) -> StatementView {
    StatementView {
        sql: INSERT_SQL@,
        params: seq![
            SqlValueView::Text(e.content),
            SqlValueView::Text(e.content_type.name()),
            SqlValueView::Integer((e.byte_size as i64) as int),
            SqlValueView::Text(e.created_at),
            nullable_text(e.label),
        ],
    }
}

/// Builds the statement that adds an entry.
pub fn insert_statement(entry: &ClipEntry) -> (s: Statement)
    ensures
        s@ == insert_statement_spec(entry@),
{
    let label = match &entry.label {
        Some(l) => SqlValue::Text(l.clone()),
        None => SqlValue::Null,
    };
    let mut params: Vec<SqlValue> = Vec::new();
    params.push(SqlValue::Text(entry.content.clone()));
    params.push(SqlValue::Text(entry.content_type.to_string()));
    params.push(SqlValue::Integer(#[verifier::truncate] (entry.byte_size as i64)));
    params.push(SqlValue::Text(entry.created_at.clone()));
    params.push(label);
    let s = Statement { sql: INSERT_SQL.to_owned(), params };
    assert(s@.params == insert_statement_spec(entry@).params);
    s
}

/// Has a row exactly where the row with the greatest id holds a content.
pub const DUPLICATE_SQL: &'static str =
    "SELECT 1 FROM clips WHERE id = (SELECT MAX(id) FROM clips) AND content = ?1";

/// The row with an id.
pub const SELECT_BY_ID_SQL: &'static str =
    "SELECT id, content, content_type, byte_size, created_at, label FROM clips WHERE id = ?1";

/// The row with the greatest id.
pub const SELECT_NEWEST_SQL: &'static str =
    "SELECT id, content, content_type, byte_size, created_at, label FROM clips ORDER BY id DESC LIMIT 1";

/// Sets the label of the row with an id.
pub const UPDATE_LABEL_SQL: &'static str = "UPDATE clips SET label = ?1 WHERE id = ?2";

/// Removes the row with an id.
pub const DELETE_SQL: &'static str = "DELETE FROM clips WHERE id = ?1";

/// The number of rows.
pub const COUNT_SQL: &'static str = "SELECT COUNT(*) FROM clips";

/// Removes every row.
pub const DELETE_ALL_SQL: &'static str = "DELETE FROM clips;";

/// A statement that is one text and the values bound to it.
pub open spec fn statement_of(sql: Seq<char>, params: Seq<SqlValueView>) -> StatementView {
    StatementView { sql, params }
}

/// Builds the query that has a row exactly where the newest entry holds
/// `content`.
pub fn duplicate_statement(content: &str) -> (s: Statement)
    ensures
        s@ == statement_of(DUPLICATE_SQL@, seq![SqlValueView::Text(content@)]),
{
    let s = Statement {
        sql: DUPLICATE_SQL.to_owned(),
        params: vec![SqlValue::Text(content.to_owned())],
    };
    assert(s@.params == seq![SqlValueView::Text(content@)]);
    s
}

/// Builds the query for the entry with the given id.
pub fn select_by_id_statement(id: i64) -> (s: Statement)
    ensures
        s@ == statement_of(SELECT_BY_ID_SQL@, seq![SqlValueView::Integer(id as int)]),
{
    let s = Statement { sql: SELECT_BY_ID_SQL.to_owned(), params: vec![SqlValue::Integer(id)] };
    assert(s@.params == seq![SqlValueView::Integer(id as int)]);
    s
}

/// Builds the query for the entry with the greatest id.
pub fn select_newest_statement() -> (s: Statement)
    ensures
        s@ == statement_of(SELECT_NEWEST_SQL@, Seq::<SqlValueView>::empty()),
{
    let s = Statement { sql: SELECT_NEWEST_SQL.to_owned(), params: Vec::new() };
    assert(s@.params == Seq::<SqlValueView>::empty());
    s
}

/// Builds the statement that sets the label of the entry with the given id,
/// to NULL where no label is given.
pub fn update_label_statement(id: i64, label: Option<&str>) -> (s: Statement)
    ensures
        s@ == statement_of(
            UPDATE_LABEL_SQL@,
            seq![nullable_text(opt_str(label)), SqlValueView::Integer(id as int)],
        ),
{
    let s = Statement {
        sql: UPDATE_LABEL_SQL.to_owned(),
        params: vec![bind_nullable(label), SqlValue::Integer(id)],
    };
    assert(s@.params == seq![nullable_text(opt_str(label)), SqlValueView::Integer(id as int)]);
    s
}

/// Builds the statement that removes the entry with the given id.
pub fn delete_statement(id: i64) -> (s: Statement)
    ensures
        s@ == statement_of(DELETE_SQL@, seq![SqlValueView::Integer(id as int)]),
{
    let s = Statement { sql: DELETE_SQL.to_owned(), params: vec![SqlValue::Integer(id)] };
    assert(s@.params == seq![SqlValueView::Integer(id as int)]);
    s
}

/// One condition on the rows of a query. The conditions of a query all have
/// to hold.
#[derive(Debug, Clone)]
pub enum Filter {
    /// The label is exactly this one.
    Label(String),
    /// The time of capture is not before this one.
    Since(String),
    /// The name of the content type is exactly this one.
    Kind(String),
}

/// The mathematical value of a [`Filter`].
pub enum FilterView {
    Label(Seq<char>),
    Since(Seq<char>),
    Kind(Seq<char>),
}

impl View for Filter {
    type V = FilterView;

    open spec fn view(&self) -> FilterView {
        match self {
            Filter::Label(t) => FilterView::Label(t@),
            Filter::Since(t) => FilterView::Since(t@),
            Filter::Kind(t) => FilterView::Kind(t@),
        }
    }
}

impl FilterView {
    /// The condition on a column, with a placeholder for the value.
    pub open spec fn condition(self) -> Seq<char> {
        match self {
            FilterView::Label(_) => "label = ?"@,
            FilterView::Since(_) => "created_at >= ?"@,
            FilterView::Kind(_) => "content_type = ?"@,
        }
    }

    /// The value bound to the placeholder.
    pub open spec fn value(self) -> SqlValueView {
        match self {
            FilterView::Label(t) => SqlValueView::Text(t),
            FilterView::Since(t) => SqlValueView::Text(t),
            FilterView::Kind(t) => SqlValueView::Text(t),
        }
    }
}

impl Filter {
    fn condition(&self) -> (r: &'static str)
        ensures
            r@ == self@.condition(),
    {
        match self {
            Filter::Label(_) => "label = ?",
            Filter::Since(_) => "created_at >= ?",
            Filter::Kind(_) => "content_type = ?",
        }
    }

    fn value(&self) -> (r: SqlValue)
        ensures
            r@ == self@.value(),
    {
        match self {
            Filter::Label(t) => SqlValue::Text(t.clone()),
            Filter::Since(t) => SqlValue::Text(t.clone()),
            Filter::Kind(t) => SqlValue::Text(t.clone()),
        }
    }
}

/// The views of a list of filters.
pub open spec fn filter_views(filters: Seq<Filter>) -> Seq<FilterView> {
    filters.map_values(|f: Filter| f@)
}

/// The filters that were asked for, in the order label, time, type.
pub open spec fn chosen_filters(
    label: Option<Seq<char>>,
    since: Option<Seq<char>>,
    kind: Option<Seq<char>>,
) -> Seq<FilterView> {
    (match label {
        Some(t) => seq![FilterView::Label(t)],
        None => Seq::<FilterView>::empty(),
    }) + (match since {
        Some(t) => seq![FilterView::Since(t)],
        None => Seq::<FilterView>::empty(),
    }) + (match kind {
        Some(t) => seq![FilterView::Kind(t)],
        None => Seq::<FilterView>::empty(),
    })
}

/// Collects the filters that were asked for.
pub fn choose_filters(label: Option<&str>, since: Option<&str>, kind: Option<&str>) -> (r: Vec<
    Filter,
>)
    ensures
        filter_views(r@) == chosen_filters(opt_str(label), opt_str(since), opt_str(kind)),
{
    let mut r: Vec<Filter> = Vec::new();
    if let Some(t) = label {
        r.push(Filter::Label(t.to_owned()));
    }
    if let Some(t) = since {
        r.push(Filter::Since(t.to_owned()));
    }
    if let Some(t) = kind {
        r.push(Filter::Kind(t.to_owned()));
    }
    r
}

/// The conditions joined for a WHERE clause that already holds a condition:
/// each is preceded by AND, and its column by the qualifier.
pub open spec fn conjunction(filters: Seq<FilterView>, qualifier: Seq<char>) -> Seq<char>
    decreases filters.len(),
{
    if filters.len() == 0 {
        Seq::<char>::empty()
    } else {
        conjunction(filters.drop_last(), qualifier) + " AND "@ + qualifier
            + filters.last().condition()
    }
}

/// The values bound to the placeholders of the conditions, in their order.
pub open spec fn filter_values(filters: Seq<FilterView>) -> Seq<SqlValueView> {
    filters.map_values(|f: FilterView| f.value())
}

fn append_filters(
    sql: &mut String,
    params: &mut Vec<SqlValue>,
    filters: &Vec<Filter>,
    qualifier: &str,
)
    ensures
        final(sql)@ == old(sql)@ + conjunction(filter_views(filters@), qualifier@),
        values(final(params)@) == values(old(params)@) + filter_values(filter_views(filters@)),
{
    let ghost all = filter_views(filters@);
    let mut i: usize = 0;
    while i < filters.len()
        invariant
            i <= filters.len(),
            all == filter_views(filters@),
            sql@ == old(sql)@ + conjunction(all.take(i as int), qualifier@),
            values(params@) == values(old(params)@) + filter_values(all.take(i as int)),
        decreases filters.len() - i,
    {
        let f = &filters[i];
        let ghost before = all.take(i as int);
        let ghost after = all.take(i + 1);
        assert(after.drop_last() == before);
        sql.append(" AND ");
        sql.append(qualifier);
        sql.append(f.condition());
        let ghost bound = params@;
        let value = f.value();
        params.push(value);
        assert(values(params@) == values(bound).push(value@));
        i = i + 1;
    }
    assert(all.take(i as int) == all);
}

/// The rows of the table, before any filter.
pub const LIST_HEAD: &'static str =
    "SELECT id, content, content_type, byte_size, created_at, label FROM clips WHERE 1=1";

/// From the greatest id down, one page of them.
pub const LIST_TAIL: &'static str = " ORDER BY id DESC LIMIT ? OFFSET ?";

/// The statement that lists entries, newest first: every filter has to hold,
/// at most `limit` rows are asked for, after `offset` rows are passed over.
pub open spec fn list_statement_spec(
    limit: usize,
    offset: usize,
    filters: Seq<FilterView>,
) -> StatementView {
    StatementView {
        sql: LIST_HEAD@ + conjunction(filters, Seq::<char>::empty()) + LIST_TAIL@,
        params: filter_values(filters) + seq![
            SqlValueView::Integer((limit as i64) as int),
            SqlValueView::Integer((offset as i64) as int),
        ],
    }
}

/// Builds the statement that lists entries.
pub fn list_statement(limit: usize, offset: usize, filters: &Vec<Filter>) -> (s: Statement)
    ensures
        s@ == list_statement_spec(limit, offset, filter_views(filters@)),
{
    proof {
        reveal_strlit("");
    }
    let mut sql = LIST_HEAD.to_owned();
    let mut params: Vec<SqlValue> = Vec::new();
    append_filters(&mut sql, &mut params, filters, "");
    sql.append(LIST_TAIL);
    params.push(SqlValue::Integer(#[verifier::truncate] (limit as i64)));
    params.push(SqlValue::Integer(#[verifier::truncate] (offset as i64)));
    let s = Statement { sql, params };
    assert(""@ == Seq::<char>::empty());
    assert(s@.params == list_statement_spec(limit, offset, filter_views(filters@)).params);
    s
}

/// The text with every double quote written twice.
pub open spec fn quotes_doubled(s: Seq<char>) -> Seq<char>
    decreases s.len(),
{
    if s.len() == 0 {
        Seq::<char>::empty()
    } else if s.last() == '"' {
        quotes_doubled(s.drop_last()).push('"').push('"')
    } else {
        quotes_doubled(s.drop_last()).push(s.last())
    }
}

/// Writes every double quote of a text twice, so that none of them can end a
/// quoted string of the query language early.
pub fn escape_quotes(s: &str) -> (r: String)
    ensures
        r@ == quotes_doubled(s@),
{
    broadcast use vstd::string::group_string_axioms;

    let mut out = String::new();
    for c in it: s.chars()
        invariant
            it.seq() == s@,
            out@ == quotes_doubled(s@.take(it.index() as int)),
    {
        let ghost next = s@.take(it.index() + 1);
        assert(next.drop_last() == s@.take(it.index() as int));
        if c == '"' {
            push_char(&mut out, '"');
        }
        push_char(&mut out, c);
    }
    assert(s@.take(s@.len() as int) == s@);
    out
}

/// The number of double quotes in a text.
pub open spec fn quote_count(s: Seq<char>) -> nat
    decreases s.len(),
{
    if s.len() == 0 {
        0
    } else if s.last() == '"' {
        quote_count(s.drop_last()) + 1
    } else {
        quote_count(s.drop_last())
    }
}

/// Escaping leaves no double quote on its own: an escaped text holds twice
/// the quotes of the text, an even number of them.
pub proof fn lemma_escaped_quotes_are_paired(s: Seq<char>)
    ensures
        quote_count(quotes_doubled(s)) == 2 * quote_count(s),
    decreases s.len(),
{
    if s.len() > 0 {
        let head = quotes_doubled(s.drop_last());
        lemma_escaped_quotes_are_paired(s.drop_last());
        if s.last() == '"' {
            let once = head.push('"');
            assert(once.drop_last() == head);
            assert(once.push('"').drop_last() == once);
            assert(quote_count(once.push('"')) == quote_count(once) + 1);
        } else {
            let kept = head.push(s.last());
            assert(kept.drop_last() == head);
        }
    }
}

/// The rows that the full-text index matches to a query, before any filter.
pub const SEARCH_HEAD: &'static str =
    "SELECT c.id, c.content, c.content_type, c.byte_size, c.created_at, c.label FROM clips_fts f JOIN clips c ON c.id = f.rowid WHERE clips_fts MATCH ?1";

/// From the best match down, a limited number of them.
pub const SEARCH_TAIL: &'static str = " ORDER BY bm25(clips_fts) LIMIT ?";

/// The statement that searches the full-text index: the rows that match the
/// query and every filter, best match first, at most `limit` of them.
pub open spec fn search_statement_spec(
    query: Seq<char>,
    limit: usize,
    filters: Seq<FilterView>,
) -> StatementView {
    StatementView {
        sql: SEARCH_HEAD@ + conjunction(filters, "c."@) + SEARCH_TAIL@,
        params: seq![SqlValueView::Text(query)] + filter_values(filters) + seq![
            SqlValueView::Integer((limit as i64) as int),
        ],
    }
}

/// Builds the statement that searches the full-text index for `query`, which
/// is handed to the index as it is.
pub fn search_statement(query: String, limit: usize, filters: &Vec<Filter>) -> (s: Statement)
    ensures
        s@ == search_statement_spec(query@, limit, filter_views(filters@)),
{
    let ghost query_text = query@;
    let mut sql = SEARCH_HEAD.to_owned();
    let mut params: Vec<SqlValue> = Vec::new();
    params.push(SqlValue::Text(query));
    assert(values(params@) == seq![SqlValueView::Text(query_text)]);
    append_filters(&mut sql, &mut params, filters, "c.");
    sql.append(SEARCH_TAIL);
    params.push(SqlValue::Integer(#[verifier::truncate] (limit as i64)));
    let s = Statement { sql, params };
    assert(s@.params == search_statement_spec(query_text, limit, filter_views(filters@)).params);
    s
}

} // verus!
