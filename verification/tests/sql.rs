use clipm::models::{ClipEntry, ContentType};
use clipm::sql::{
    bind_nullable, choose_filters, delete_statement, duplicate_statement, insert_statement,
    list_statement, search_statement, select_by_id_statement, select_newest_statement,
    update_label_statement, Filter, SqlValue,
};

fn sample_entry(content: &str) -> ClipEntry {
    ClipEntry {
        id: 0,
        content: content.to_string(),
        content_type: ContentType::Text,
        byte_size: content.len(),
        created_at: "2026-01-01T00:00:00Z".to_string(),
        label: None,
    }
}

fn texts(values: &[SqlValue]) -> Vec<String> {
    values
        .iter()
        .map(|v| match v {
            SqlValue::Null => "NULL".to_string(),
            SqlValue::Integer(i) => format!("int {}", i),
            SqlValue::Text(t) => format!("text {}", t),
        })
        .collect()
}

#[test]
fn insert_statement_binds_the_entry() {
    let mut entry = sample_entry("héllo");
    entry.content_type = ContentType::Password;
    entry.id = 99;
    let statement = insert_statement(&entry);
    assert_eq!(
        statement.sql,
        "INSERT INTO clips (content, content_type, byte_size, created_at, label) VALUES (?1, ?2, ?3, ?4, ?5)"
    );
    assert_eq!(
        texts(&statement.params),
        vec!["text héllo", "text password", "int 6", "text 2026-01-01T00:00:00Z", "NULL"]
    );
    entry.label = Some("l".to_string());
    entry.byte_size = usize::MAX;
    let statement = insert_statement(&entry);
    assert_eq!(texts(&statement.params)[4], "text l");
    if usize::BITS == 64 {
        assert_eq!(texts(&statement.params)[2], "int -1");
    }
}

#[test]
fn list_statement_joins_its_filters() {
    let none = list_statement(20, 0, &choose_filters(None, None, None));
    assert_eq!(
        none.sql,
        "SELECT id, content, content_type, byte_size, created_at, label FROM clips WHERE 1=1 ORDER BY id DESC LIMIT ? OFFSET ?"
    );
    assert_eq!(texts(&none.params), vec!["int 20", "int 0"]);

    let all = list_statement(5, 7, &choose_filters(Some("l"), Some("2026"), Some("text")));
    assert_eq!(
        all.sql,
        "SELECT id, content, content_type, byte_size, created_at, label FROM clips WHERE 1=1 AND label = ? AND created_at >= ? AND content_type = ? ORDER BY id DESC LIMIT ? OFFSET ?"
    );
    assert_eq!(texts(&all.params), vec!["text l", "text 2026", "text text", "int 5", "int 7"]);

    let some = list_statement(1, 2, &choose_filters(None, Some("t"), None));
    assert_eq!(
        some.sql,
        "SELECT id, content, content_type, byte_size, created_at, label FROM clips WHERE 1=1 AND created_at >= ? ORDER BY id DESC LIMIT ? OFFSET ?"
    );
    assert_eq!(texts(&some.params), vec!["text t", "int 1", "int 2"]);
}

#[test]
fn search_statement_qualifies_its_filters() {
    let filters = choose_filters(None, Some("2026"), Some("password"));
    assert!(matches!(filters[0], Filter::Since(_)));
    assert!(matches!(filters[1], Filter::Kind(_)));
    let statement = search_statement("q".to_string(), 3, &filters);
    assert_eq!(
        statement.sql,
        "SELECT c.id, c.content, c.content_type, c.byte_size, c.created_at, c.label FROM clips_fts f JOIN clips c ON c.id = f.rowid WHERE clips_fts MATCH ?1 AND c.created_at >= ? AND c.content_type = ? ORDER BY bm25(clips_fts) LIMIT ?"
    );
    assert_eq!(texts(&statement.params), vec!["text q", "text 2026", "text password", "int 3"]);
}

#[test]
fn nullable_text_binds_null_for_none() {
    assert!(matches!(bind_nullable(None), SqlValue::Null));
    match bind_nullable(Some("x")) {
        SqlValue::Text(t) => assert_eq!(t, "x"),
        other => panic!("unexpected: {:?}", other),
    }
}


#[test]
fn statements_on_one_entry() {
    let s = duplicate_statement("some \"text\"");
    assert_eq!(s.sql, "SELECT 1 FROM clips WHERE id = (SELECT MAX(id) FROM clips) AND content = ?1");
    assert_eq!(texts(&s.params), vec!["text some \"text\""]);

    let s = select_by_id_statement(-4);
    assert_eq!(
        s.sql,
        "SELECT id, content, content_type, byte_size, created_at, label FROM clips WHERE id = ?1"
    );
    assert_eq!(texts(&s.params), vec!["int -4"]);

    let s = select_newest_statement();
    assert_eq!(
        s.sql,
        "SELECT id, content, content_type, byte_size, created_at, label FROM clips ORDER BY id DESC LIMIT 1"
    );
    assert!(s.params.is_empty());

    let s = update_label_statement(8, Some("tag"));
    assert_eq!(s.sql, "UPDATE clips SET label = ?1 WHERE id = ?2");
    assert_eq!(texts(&s.params), vec!["text tag", "int 8"]);
    let s = update_label_statement(8, None);
    assert_eq!(texts(&s.params), vec!["NULL", "int 8"]);
    let s = update_label_statement(8, Some(""));
    assert_eq!(texts(&s.params), vec!["text ", "int 8"]);

    let s = delete_statement(i64::MAX);
    assert_eq!(s.sql, "DELETE FROM clips WHERE id = ?1");
    assert_eq!(texts(&s.params), vec!["int 9223372036854775807"]);
}

#[test]
fn filters_are_chosen_in_a_fixed_order() {
    assert!(choose_filters(None, None, None).is_empty());
    let all = choose_filters(Some("l"), Some("s"), Some("k"));
    assert_eq!(all.len(), 3);
    match (&all[0], &all[1], &all[2]) {
        (Filter::Label(l), Filter::Since(s), Filter::Kind(k)) => {
            assert_eq!(l, "l");
            assert_eq!(s, "s");
            assert_eq!(k, "k");
        }
        other => panic!("unexpected: {:?}", other),
    }
    let two = choose_filters(Some("l"), None, Some("k"));
    assert!(matches!((&two[0], &two[1]), (Filter::Label(_), Filter::Kind(_))));
}
