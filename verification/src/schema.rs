//! The schema of the database and the migrations that bring a database to
//! it.

use vstd::prelude::*;

verus! {

/// The version of the schema that `migrate` brings a database to.
pub const SCHEMA_VERSION: i64 = 2;

/// The query for the version of the schema that a database records.
pub const VERSION_SQL: &'static str = "PRAGMA user_version";

/// The settings of a connection: a write-ahead log, so that readers and a
/// writer do not block each other, and a wait of at most five seconds on a
/// database that another connection has locked.
pub(crate) const PRAGMAS: &'static str = "
    PRAGMA journal_mode=WAL;
    PRAGMA foreign_keys=ON;
    PRAGMA busy_timeout=5000;
    PRAGMA synchronous=NORMAL;";

/// The first migration: the table of entries, the full-text index over
/// content and label, and the triggers that carry every change of the table
/// into the index within the statement that makes it.
pub const MIGRATION_1: &'static str = "
    CREATE TABLE IF NOT EXISTS clips (
        id           INTEGER PRIMARY KEY AUTOINCREMENT,
        content      TEXT NOT NULL,
        content_type TEXT NOT NULL DEFAULT 'text',
        byte_size    INTEGER NOT NULL,
        created_at   TEXT NOT NULL,
        label        TEXT
    );

    CREATE INDEX IF NOT EXISTS idx_clips_label ON clips(label);

    CREATE VIRTUAL TABLE IF NOT EXISTS clips_fts USING fts5(
        content,
        label,
        content='clips',
        content_rowid='id'
    );

    CREATE TRIGGER IF NOT EXISTS clips_ai AFTER INSERT ON clips BEGIN
        INSERT INTO clips_fts(rowid, content, label)
        VALUES (new.id, new.content, new.label);
    END;

    CREATE TRIGGER IF NOT EXISTS clips_ad AFTER DELETE ON clips BEGIN
        INSERT INTO clips_fts(clips_fts, rowid, content, label)
        VALUES ('delete', old.id, old.content, old.label);
    END;

    CREATE TRIGGER IF NOT EXISTS clips_au AFTER UPDATE ON clips BEGIN
        INSERT INTO clips_fts(clips_fts, rowid, content, label)
        VALUES ('delete', old.id, old.content, old.label);
        INSERT INTO clips_fts(rowid, content, label)
        VALUES (new.id, new.content, new.label);
    END;

    PRAGMA user_version = 1;";

/// The second migration: the triggers index the empty text in place of the
/// content of a password, so that a search finds a password by its label
/// alone; the index is built anew; and the content type gets an index.
pub const MIGRATION_2: &'static str = "
    DROP TRIGGER IF EXISTS clips_ai;
    DROP TRIGGER IF EXISTS clips_ad;
    DROP TRIGGER IF EXISTS clips_au;

    CREATE TRIGGER clips_ai AFTER INSERT ON clips BEGIN
        INSERT INTO clips_fts(rowid, content, label)
        VALUES (
            new.id,
            CASE WHEN new.content_type = 'password' THEN '' ELSE new.content END,
            new.label
        );
    END;

    CREATE TRIGGER clips_ad AFTER DELETE ON clips BEGIN
        INSERT INTO clips_fts(clips_fts, rowid, content, label)
        VALUES (
            'delete',
            old.id,
            CASE WHEN old.content_type = 'password' THEN '' ELSE old.content END,
            old.label
        );
    END;

    CREATE TRIGGER clips_au AFTER UPDATE ON clips BEGIN
        INSERT INTO clips_fts(clips_fts, rowid, content, label)
        VALUES (
            'delete',
            old.id,
            CASE WHEN old.content_type = 'password' THEN '' ELSE old.content END,
            old.label
        );
        INSERT INTO clips_fts(rowid, content, label)
        VALUES (
            new.id,
            CASE WHEN new.content_type = 'password' THEN '' ELSE new.content END,
            new.label
        );
    END;

    INSERT INTO clips_fts(clips_fts) VALUES('rebuild');

    CREATE INDEX IF NOT EXISTS idx_clips_content_type ON clips(content_type);

    PRAGMA user_version = 2;";

/// The migrations that a database at `version` still needs: every one above
/// its version, in rising order, none left out. A database at the latest
/// version, or beyond it, needs none.
pub open spec fn pending(version: int) -> Seq<int> {
    let done = if version < 0 {
        0
    } else {
        version
    };
    if done < SCHEMA_VERSION {
        Seq::new((SCHEMA_VERSION - done) as nat, |i: int| done + 1 + i)
    } else {
        Seq::<int>::empty()
    }
}

/// The version that a database at `version` is at once its pending
/// migrations have run.
pub open spec fn version_after(version: int) -> int {
    if pending(version).len() == 0 {
        version
    } else {
        pending(version).last()
    }
}

/// The numbers of a list of migrations.
pub open spec fn steps(plan: Seq<i64>) -> Seq<int> {
    plan.map_values(|step: i64| step as int)
}

/// Plans the migrations that a database at `version` still needs.
pub fn pending_migrations(version: i64) -> (plan: Vec<i64>)
    ensures
        steps(plan@) == pending(version as int),
        forall|i: int| 0 <= i < plan@.len() ==> 1 <= #[trigger] plan@[i] <= SCHEMA_VERSION,
{
    let done: i64 = if version < 0 {
        0
    } else {
        version
    };
    let mut plan: Vec<i64> = Vec::new();
    let mut next: i64 = done;
    while next < SCHEMA_VERSION
        invariant
            0 <= done <= next,
            done < SCHEMA_VERSION ==> next <= SCHEMA_VERSION,
            done >= SCHEMA_VERSION ==> next == done,
            plan@.len() == next - done,
            forall|i: int| 0 <= i < plan@.len() ==> #[trigger] plan@[i] == done + 1 + i,
        decreases SCHEMA_VERSION - next,
    {
        next = next + 1;
        plan.push(next);
    }
    plan
}

/// Migrating twice is migrating once: a database that its pending migrations
/// have brought to a version needs no migration, and stays at that version.
pub proof fn lemma_migration_settles(version: int)
    ensures
        pending(version_after(version)).len() == 0,
        version_after(version_after(version)) == version_after(version),
        version < SCHEMA_VERSION ==> version_after(version) == SCHEMA_VERSION,
{
}

/// The pending migrations start right above the version of the database,
/// rise one by one and end at the latest version.
pub proof fn lemma_migrations_in_order(version: int)
    ensures
        forall|i: int|
            0 <= i < pending(version).len() ==> (#[trigger] pending(version)[i]) > version,
        forall|i: int|
            0 < i < pending(version).len() ==> (#[trigger] pending(version)[i]) == pending(
                version,
            )[i - 1] + 1,
        pending(version).len() > 0 ==> pending(version).last() == SCHEMA_VERSION,
        0 <= version < SCHEMA_VERSION ==> pending(version).first() == version + 1,
{
}

/// The statements of the migration that brings a database to the version
/// `step`.
pub open spec fn script(step: int) -> Seq<char> {
    if step == 1 {
        MIGRATION_1@
    } else {
        MIGRATION_2@
    }
}

/// The statements of one migration.
pub(crate) fn migration_script(step: i64) -> (sql: &'static str)
    requires
        1 <= step <= SCHEMA_VERSION,
    ensures
        sql@ == script(step as int),
{
    if step == 1 {
        MIGRATION_1
    } else {
        MIGRATION_2
    }
}

} // verus!
