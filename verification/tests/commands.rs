use clipm::clipboard::read_text;
use clipm::commands::{
    confirmed, entries_to_rows, entry_to_row, format_size, format_timestamp, get, list, new_entry,
    row_with_time, search, skips, store, stored, timestamp_or_stored, truncate, StoreOutcome,
};
use clipm::db;
use clipm::models::{ClipEntry, ClipmError, ContentType};
use rusqlite::Connection;

fn fresh_store() -> Connection {
    let conn = Connection::open_in_memory().unwrap();
    db::migrate(&conn).unwrap();
    conn
}

fn row_count(conn: &Connection) -> i64 {
    conn.query_row("SELECT COUNT(*) FROM clips", [], |r| r.get(0)).unwrap()
}

#[test]
fn test_truncate_short_string() {
    assert_eq!(truncate("hello", 10), "hello");
}

#[test]
fn test_truncate_exact_length() {
    assert_eq!(truncate("hello", 5), "hello");
}

#[test]
fn test_truncate_long_string() {
    assert_eq!(truncate("hello world", 8), "hello w…");
}

#[test]
fn test_truncate_newlines_replaced() {
    assert_eq!(truncate("hello\nworld", 20), "hello world");
}

#[test]
fn test_truncate_unicode() {
    assert_eq!(truncate("日本語テスト", 4), "日本語…");
}

#[test]
fn test_truncate_emoji() {
    assert_eq!(truncate("😀😁😂🤣😃", 3), "😀😁…");
}

#[test]
fn test_format_size_bytes() {
    assert_eq!(format_size(0), "0 B");
    assert_eq!(format_size(500), "500 B");
    assert_eq!(format_size(1023), "1023 B");
}

#[test]
fn test_format_size_kb() {
    assert_eq!(format_size(1024), "1.0 KB");
    assert_eq!(format_size(2048), "2.0 KB");
}

#[test]
fn test_format_size_mb() {
    assert_eq!(format_size(1024 * 1024), "1.0 MB");
    assert_eq!(format_size(2 * 1024 * 1024), "2.0 MB");
}

#[test]
fn test_format_timestamp_valid() {
    let ts = "2026-02-17T10:30:00+00:00";
    let result = format_timestamp(ts);
    assert!(result.contains("2026"));
    assert!(result.contains("02"));
    assert!(!result.contains("+00:00"));
}

#[test]
fn test_format_timestamp_invalid_falls_back() {
    let ts = "not-a-timestamp";
    assert_eq!(format_timestamp(ts), "not-a-timestamp");
}

#[test]
fn test_entry_to_row_masks_password() {
    let text_entry = ClipEntry {
        id: 1,
        content: "hello world".to_string(),
        content_type: ContentType::Text,
        byte_size: 11,
        created_at: "2026-02-17T10:00:00Z".to_string(),
        label: None,
    };
    let row = entry_to_row(&text_entry);
    assert_eq!(row.preview, "hello world");

    let password_entry = ClipEntry {
        id: 2,
        content: "my-secret-password".to_string(),
        content_type: ContentType::Password,
        byte_size: 18,
        created_at: "2026-02-17T10:00:00Z".to_string(),
        label: None,
    };
    let row = entry_to_row(&password_entry);
    assert_eq!(row.preview, "********");
}

#[test]
fn truncate_edges() {
    assert_eq!(truncate("", 0), "");
    assert_eq!(truncate("", 3), "");
    assert_eq!(truncate("ab", 1), "…");
    assert_eq!(truncate("a", 1), "a");
    assert_eq!(truncate("a\nb\nc", 4), "a b…");
    assert_eq!(truncate("line\n", 5), "line ");
    assert_eq!(truncate("abcdef", 6), "abcdef");
    assert_eq!(truncate("abcdefg", 6), "abcde…");
}

#[test]
fn truncate_counts_characters_not_bytes() {
    let shown = truncate("ééééé", 5);
    assert_eq!(shown, "ééééé");
    assert_eq!(shown.len(), 10);
    assert_eq!(truncate("éééééé", 5).chars().count(), 5);
}

#[test]
fn format_size_rounds_half_to_even() {
    assert_eq!(format_size(1), "1 B");
    assert_eq!(format_size(1075), "1.0 KB");
    assert_eq!(format_size(1076), "1.1 KB");
    assert_eq!(format_size(1280), "1.2 KB");
    assert_eq!(format_size(1536), "1.5 KB");
    assert_eq!(format_size(1792), "1.8 KB");
    assert_eq!(format_size(10 * 1024), "10.0 KB");
    assert_eq!(format_size(1024 * 1024 - 1), "1024.0 KB");
    assert_eq!(format_size(1024 * 1024 + 1), "1.0 MB");
    assert_eq!(format_size(1024 * 1024 + 262144), "1.2 MB");
    assert_eq!(format_size(1024 * 1024 + 3 * 262144), "1.8 MB");
    assert_eq!(format_size(5 * 1024 * 1024 / 2), "2.5 MB");
    assert_eq!(format_size(1_000_000_000), "953.7 MB");
}

#[test]
fn format_size_of_sizes_beyond_exact_doubles() {
    if usize::BITS >= 64 {
        let base: u64 = (1u64 << 54) + (1u64 << 18);
        assert_eq!(format_size(base as usize), "17179869184.2 MB");
        assert_eq!(format_size((base + 1) as usize), "17179869184.2 MB");
        assert_eq!(format_size((base + 3) as usize), "17179869184.3 MB");
        assert_eq!(format_size(((1u64 << 53) + 1) as usize), "8589934592.0 MB");
        assert_eq!(format_size(u64::MAX as usize), "17592186044416.0 MB");
    }
}

#[test]
fn timestamp_is_shown_by_the_calendar_or_as_stored() {
    assert_eq!(timestamp_or_stored(Some("2026-02-17 10:30".to_string()), "raw"), "2026-02-17 10:30");
    assert_eq!(timestamp_or_stored(None, "raw"), "raw");
    assert_eq!(format_timestamp(""), "");
    assert_eq!(format_timestamp("2026-02-17"), "2026-02-17");
    let shown = format_timestamp("2026-02-17T10:30:00Z");
    assert_eq!(shown.len(), 16);
    assert_ne!(shown, "2026-02-17T10:30:00Z");
}

#[test]
fn row_shows_label_id_and_time() {
    let entry = ClipEntry {
        id: 42,
        content: "first line\nsecond line".to_string(),
        content_type: ContentType::Text,
        byte_size: 22,
        created_at: "yesterday".to_string(),
        label: Some("note".to_string()),
    };
    let row = entry_to_row(&entry);
    assert_eq!(row.id, 42);
    assert_eq!(row.preview, "first line second line");
    assert_eq!(row.label, "note");
    assert_eq!(row.created_at, "yesterday");

    let row = row_with_time(&entry, "now".to_string());
    assert_eq!(row.created_at, "now");
    assert_eq!(row.label, "note");
}

#[test]
fn row_preview_is_at_most_sixty_characters() {
    let entry = ClipEntry {
        id: 1,
        content: "x".repeat(61),
        content_type: ContentType::Text,
        byte_size: 61,
        created_at: "t".to_string(),
        label: None,
    };
    let row = entry_to_row(&entry);
    assert_eq!(row.preview, format!("{}…", "x".repeat(59)));
    assert_eq!(row.label, "");

    let entry = ClipEntry { content: "x".repeat(60), ..entry };
    assert_eq!(entry_to_row(&entry).preview, "x".repeat(60));
}

#[test]
fn password_row_masks_whatever_the_content() {
    let entry = ClipEntry {
        id: 3,
        content: "pw".to_string(),
        content_type: ContentType::Password,
        byte_size: 2,
        created_at: "t".to_string(),
        label: Some("bank".to_string()),
    };
    let rows = entries_to_rows(&vec![entry.clone(), ClipEntry { id: 4, content: String::new(), ..entry }]);
    assert_eq!(rows.len(), 2);
    assert_eq!(rows[0].preview, "********");
    assert_eq!(rows[1].preview, "********");
    assert_eq!(rows[0].id, 3);
    assert_eq!(rows[1].id, 4);
    assert_eq!(rows[0].label, "bank");
}

#[test]
fn new_entry_sizes_and_labels() {
    let e = new_entry("héllo".to_string(), ContentType::Text, None, "t0".to_string());
    assert_eq!(e.id, 0);
    assert_eq!(e.byte_size, 6);
    assert_eq!(e.label, None);
    assert_eq!(e.created_at, "t0");
    assert_eq!(e.content, "héllo");

    let e = new_entry("s3cret".to_string(), ContentType::Password, None, "t1".to_string());
    assert_eq!(e.label.as_deref(), Some("password"));
    assert_eq!(e.content_type, ContentType::Password);

    let e = new_entry("s3cret".to_string(), ContentType::Password, Some("bank".to_string()), "t1".to_string());
    assert_eq!(e.label.as_deref(), Some("bank"));

    let e = new_entry("plain".to_string(), ContentType::Text, Some("note".to_string()), "t1".to_string());
    assert_eq!(e.label.as_deref(), Some("note"));
}

#[test]
fn read_text_judges_the_platform() {
    assert_eq!(read_text(Ok("copied".to_string())).unwrap(), "copied");
    assert!(matches!(read_text(Ok(String::new())), Err(ClipmError::EmptyClipboard)));
    match read_text(Err("no display".to_string())) {
        Err(ClipmError::Clipboard(words)) => assert_eq!(words, "no display"),
        other => panic!("unexpected: {:?}", other),
    }
    assert_eq!(read_text(Ok(" ".to_string())).unwrap(), " ");
}

#[test]
fn store_rejects_empty_content_first() {
    let conn = fresh_store();
    assert!(matches!(
        store(&conn, String::new(), None, "bogus"),
        Err(ClipmError::EmptyClipboard)
    ));
    assert_eq!(row_count(&conn), 0);
}

#[test]
fn store_rejects_bogus_type_without_touching_the_store() {
    let conn = Connection::open_in_memory().unwrap();
    match store(&conn, "hello".to_string(), None, "bogus") {
        Err(ClipmError::InvalidInput(words)) => {
            assert_eq!(words, "Invalid content type: bogus. Must be 'text' or 'password'.")
        }
        other => panic!("unexpected: {:?}", other),
    }
}

#[test]
fn store_reports_a_storage_fault() {
    let conn = Connection::open_in_memory().unwrap();
    assert!(matches!(
        store(&conn, "hello".to_string(), None, "text"),
        Err(ClipmError::Database(_))
    ));
    assert!(matches!(
        store(&conn, "hello".to_string(), None, "password"),
        Err(ClipmError::Database(_))
    ));
}

#[test]
fn store_skips_repeated_text_but_not_repeated_password() {
    let conn = fresh_store();
    let first = store(&conn, "same".to_string(), None, "text").unwrap();
    match first {
        StoreOutcome::Stored { id, byte_size, label } => {
            assert_eq!(id, 1);
            assert_eq!(byte_size, 4);
            assert_eq!(label, None);
        }
        StoreOutcome::Skipped => panic!("first capture was skipped"),
    }
    assert!(matches!(
        store(&conn, "same".to_string(), None, "text").unwrap(),
        StoreOutcome::Skipped
    ));
    assert_eq!(row_count(&conn), 1);

    assert!(matches!(
        store(&conn, "hunter2".to_string(), None, "password").unwrap(),
        StoreOutcome::Stored { .. }
    ));
    assert!(matches!(
        store(&conn, "hunter2".to_string(), None, "password").unwrap(),
        StoreOutcome::Stored { .. }
    ));
    assert_eq!(row_count(&conn), 3);
}

#[test]
fn store_records_text_again_once_something_else_came_between() {
    let conn = fresh_store();
    store(&conn, "a".to_string(), None, "text").unwrap();
    store(&conn, "b".to_string(), None, "text").unwrap();
    assert!(matches!(
        store(&conn, "a".to_string(), None, "text").unwrap(),
        StoreOutcome::Stored { id: 3, .. }
    ));
    assert_eq!(row_count(&conn), 3);
}

#[test]
fn store_labels_passwords() {
    let conn = fresh_store();
    match store(&conn, "hunter2".to_string(), None, "password").unwrap() {
        StoreOutcome::Stored { id, byte_size, label } => {
            assert_eq!(byte_size, 7);
            assert_eq!(label.as_deref(), Some("password"));
            let stored = db::get_by_id(&conn, id).unwrap();
            assert_eq!(stored.label.as_deref(), Some("password"));
            assert_eq!(stored.content_type, ContentType::Password);
            assert_eq!(stored.content, "hunter2");
            assert_eq!(stored.byte_size, 7);
            assert!(chrono::DateTime::parse_from_rfc3339(&stored.created_at).is_ok());
        }
        StoreOutcome::Skipped => panic!("a password was skipped"),
    }
    match store(&conn, "hunter3".to_string(), Some("bank".to_string()), "password").unwrap() {
        StoreOutcome::Stored { label, .. } => assert_eq!(label.as_deref(), Some("bank")),
        StoreOutcome::Skipped => panic!("a password was skipped"),
    }
    match store(&conn, "plain".to_string(), Some("note".to_string()), "text").unwrap() {
        StoreOutcome::Stored { label, .. } => assert_eq!(label.as_deref(), Some("note")),
        StoreOutcome::Skipped => panic!("new text was skipped"),
    }
}

#[test]
fn get_resolves_by_id_or_newest() {
    let conn = fresh_store();
    assert!(matches!(get(&conn, None), Err(ClipmError::NotFound(_))));
    store(&conn, "one".to_string(), None, "text").unwrap();
    store(&conn, "two".to_string(), None, "text").unwrap();
    assert_eq!(get(&conn, None).unwrap().content, "two");
    assert_eq!(get(&conn, Some(1)).unwrap().content, "one");
    assert!(matches!(get(&conn, Some(9)), Err(ClipmError::NotFound(_))));
}

#[test]
fn list_and_search_show_masked_rows() {
    let conn = fresh_store();
    store(&conn, "alpha beta".to_string(), Some("greek".to_string()), "text").unwrap();
    store(&conn, "topsecret".to_string(), Some("greek".to_string()), "password").unwrap();

    let rows = list(&conn, 10, 0, None, None, None).unwrap();
    assert_eq!(rows.len(), 2);
    assert_eq!(rows[0].id, 2);
    assert_eq!(rows[0].preview, "********");
    assert_eq!(rows[1].preview, "alpha beta");
    assert_eq!(rows[1].label, "greek");

    let rows = search(&conn, "greek", 10, None, None).unwrap();
    assert_eq!(rows.len(), 2);
    assert!(rows.iter().any(|r| r.preview == "********"));
    assert!(search(&conn, "topsecret", 10, None, None).unwrap().is_empty());
    assert!(matches!(
        search(&conn, " \t\n", 10, None, None),
        Err(ClipmError::InvalidInput(_))
    ));
    assert!(list(&conn, 10, 0, None, None, Some("bogus")).unwrap().is_empty());
}

#[test]
fn confirmation_takes_y_in_either_case() {
    assert!(confirmed("y"));
    assert!(confirmed("Y"));
    assert!(confirmed("  y\n"));
    assert!(confirmed("\tY \r\n"));
    assert!(!confirmed(""));
    assert!(!confirmed("\n"));
    assert!(!confirmed("n"));
    assert!(!confirmed("yes"));
    assert!(!confirmed("y y"));
    assert!(!confirmed("ý"));
}

fn size_by_doubles(bytes: usize) -> String {
    if bytes < 1024 {
        format!("{bytes} B")
    } else if bytes < 1024 * 1024 {
        format!("{:.1} KB", bytes as f64 / 1024.0)
    } else {
        format!("{:.1} MB", bytes as f64 / (1024.0 * 1024.0))
    }
}

#[test]
fn format_size_agrees_with_double_precision_arithmetic() {
    let mut samples: Vec<u64> = Vec::new();
    for n in 0..5000u64 {
        samples.push(n);
        samples.push(1024 * 1024 - 2500 + n);
        samples.push(n * 256);
        samples.push(n * 262144);
        samples.push(n * 262144 + 1);
        samples.push(n.wrapping_mul(0x9E37_79B9_7F4A_7C15) >> 20);
        samples.push(n.wrapping_mul(0x9E37_79B9_7F4A_7C15) >> 8);
        samples.push(n.wrapping_mul(0x9E37_79B9_7F4A_7C15));
    }
    for shift in 50..64u32 {
        let top = 1u64 << shift;
        for odd in [1u64, 3, 5, 7, 1025, 4097] {
            for nudge in 0..9u64 {
                samples.push(top + odd * 262144 + nudge);
                samples.push((top + odd * 262144).wrapping_sub(nudge));
                samples.push(top - 1 - nudge);
                samples.push(top + nudge);
            }
        }
    }
    samples.push(u64::MAX);
    samples.push(u64::MAX - 1023);
    samples.push(u64::MAX - 1024);
    for n in samples {
        if n <= usize::MAX as u64 {
            assert_eq!(format_size(n as usize), size_by_doubles(n as usize), "for {}", n);
        }
    }
}

#[test]
fn only_a_repeated_text_is_skipped() {
    assert!(skips(ContentType::Text, true));
    assert!(!skips(ContentType::Text, false));
    assert!(!skips(ContentType::Password, true));
    assert!(!skips(ContentType::Password, false));
}

#[test]
fn the_outcome_of_storing_names_id_size_and_label() {
    let entry = new_entry("héllo".to_string(), ContentType::Password, None, "t".to_string());
    match stored(entry, 12) {
        StoreOutcome::Stored { id, byte_size, label } => {
            assert_eq!(id, 12);
            assert_eq!(byte_size, 6);
            assert_eq!(label.as_deref(), Some("password"));
        }
        StoreOutcome::Skipped => panic!("a stored entry was reported as skipped"),
    }
    let entry = new_entry("plain".to_string(), ContentType::Text, None, "t".to_string());
    match stored(entry, -1) {
        StoreOutcome::Stored { id, byte_size, label } => {
            assert_eq!(id, -1);
            assert_eq!(byte_size, 5);
            assert_eq!(label, None);
        }
        StoreOutcome::Skipped => panic!("a stored entry was reported as skipped"),
    }
}

#[test]
fn a_repeated_text_leaves_the_history_as_it_was() {
    let conn = fresh_store();
    store(&conn, "hello".to_string(), None, "text").unwrap();
    let before = db::get_most_recent(&conn).unwrap();
    assert!(matches!(
        store(&conn, "hello".to_string(), None, "text").unwrap(),
        StoreOutcome::Skipped
    ));
    assert_eq!(row_count(&conn), 1);
    let after = db::get_most_recent(&conn).unwrap();
    assert_eq!(after.id, before.id);
    assert_eq!(after.content, "hello");
    assert_eq!(after.content_type, ContentType::Text);
    assert_eq!(after.label, None);
    assert_eq!(after.created_at, before.created_at);
}

#[test]
fn search_lines_mask_passwords() {
    let conn = fresh_store();
    store(&conn, "topsecret".to_string(), Some("vault".to_string()), "password").unwrap();
    let rows = search(&conn, "vault", 10, None, Some("password")).unwrap();
    assert_eq!(rows.len(), 1);
    assert_eq!(rows[0].preview, "********");
    assert_eq!(rows[0].label, "vault");
    assert_eq!(rows[0].id, 1);
}
