use dictionary_assets::candidate::{
    archive_file_name, database_file_name, default_candidates, Candidate, Source,
};
use dictionary_assets::outcome::{Failure, FailureKind, DICTIONARY_VERSION};
use dictionary_assets::schema::{migrations, Migration, MigrationKind, WORDS_DATABASE};
use dictionary_assets::text::decimal_string;
use dictionary_assets::trace::{absent_line, checking_line, found_line, probe_line, success_line};

#[test]
fn decimal_numerals() {
    assert_eq!(decimal_string(0), "0");
    assert_eq!(decimal_string(7), "7");
    assert_eq!(decimal_string(9), "9");
    assert_eq!(decimal_string(10), "10");
    assert_eq!(decimal_string(99), "99");
    assert_eq!(decimal_string(100), "100");
    assert_eq!(decimal_string(50_000), "50000");
    assert_eq!(decimal_string(1_234_567_890), "1234567890");
    assert_eq!(decimal_string(u64::MAX), "18446744073709551615");
}

#[test]
fn decimal_numerals_agree_with_std() {
    let mut n: u64 = 1;
    for _ in 0..64 {
        assert_eq!(decimal_string(n), n.to_string());
        assert_eq!(decimal_string(n - 1), (n - 1).to_string());
        n = n.wrapping_mul(3).wrapping_add(7);
    }
}

#[test]
fn file_names_carry_the_language() {
    assert_eq!(database_file_name("fr"), "dictionary_fr.db");
    assert_eq!(archive_file_name("fr"), "dictionary_fr.db.gz");
    assert_eq!(database_file_name(""), "dictionary_.db");
    assert_eq!(archive_file_name("pt-BR"), "dictionary_pt-BR.db.gz");
}

#[test]
fn default_candidates_in_order() {
    assert_eq!(
        default_candidates("fr"),
        vec![
            Candidate { source: Source::Bundled, name: "dictionary_fr.db.gz".to_string() },
            Candidate {
                source: Source::Bundled,
                name: "resources/dictionary_fr.db.gz".to_string()
            },
            Candidate { source: Source::ExecutableDir, name: "dictionary_fr.db.gz".to_string() },
            Candidate {
                source: Source::ExecutableDir,
                name: "resources/dictionary_fr.db.gz".to_string()
            },
            Candidate { source: Source::DataDir, name: "dictionary_fr.db.gz".to_string() },
        ]
    );
}

#[test]
fn candidate_labels_and_copies() {
    let candidate = Candidate::new(Source::ExecutableDir, "resources/d.gz");
    assert_eq!(candidate.label(), "exe:resources/d.gz");
    assert_eq!(candidate.duplicate(), candidate);
    assert_eq!(Candidate::new(Source::Bundled, "d.gz").label(), "bundle:d.gz");
    assert_eq!(Candidate::new(Source::DataDir, "").label(), "data:");
}

#[test]
fn trace_lines() {
    assert_eq!(
        checking_line("fr", "/data/dictionary_fr.db"),
        "[RUST] Checking for dictionary (fr) at: /data/dictionary_fr.db"
    );
    assert_eq!(
        probe_line(&Candidate::new(Source::DataDir, "dictionary_fr.db.gz")),
        "[RUST] Checking for GZ file at: data:dictionary_fr.db.gz"
    );
    assert_eq!(found_line(), "[RUST] GZ file found, decompressing...");
    assert_eq!(success_line(50_000), "[RUST] Successfully decompressed 50000 bytes");
    assert_eq!(success_line(0), "[RUST] Successfully decompressed 0 bytes");
    assert_eq!(absent_line(), "[RUST] Dictionary not found locally.");
}

#[test]
fn failure_messages() {
    let failure = |kind| Failure { kind, cause: "cause".to_string(), logs: Vec::new() };
    assert_eq!(failure(FailureKind::DataDir).message(), "Failed to get app data dir: cause");
    assert_eq!(failure(FailureKind::Read).message(), "Failed to read GZ file: cause");
    assert_eq!(failure(FailureKind::Create).message(), "Failed to create DB file: cause");
    assert_eq!(failure(FailureKind::Decompress).message(), "Failed to decompress DB: cause");
    assert_eq!(
        Failure { kind: FailureKind::OutOfTurn, cause: String::new(), logs: Vec::new() }.message(),
        "Reply does not answer the pending request"
    );
}

#[test]
fn version_tag() {
    assert_eq!(DICTIONARY_VERSION, "20241115");
}

#[test]
fn schema_steps() {
    assert_eq!(WORDS_DATABASE, "sqlite:words.db");
    let steps = migrations();
    assert_eq!(
        steps,
        vec![
            Migration {
                version: 1,
                description: "create_words_table",
                sql: "CREATE TABLE IF NOT EXISTS words (
                id INTEGER PRIMARY KEY AUTOINCREMENT,
                original TEXT NOT NULL,
                translation TEXT NOT NULL,
                article TEXT NOT NULL DEFAULT '',
                created_at DATETIME DEFAULT CURRENT_TIMESTAMP
            )",
                kind: MigrationKind::Up,
            },
            Migration {
                version: 2,
                description: "add_spaced_repetition_fields",
                sql: "ALTER TABLE words ADD COLUMN score INTEGER NOT NULL DEFAULT 0;
                  ALTER TABLE words ADD COLUMN createdAt INTEGER NOT NULL DEFAULT 0;
                  ALTER TABLE words ADD COLUMN lastReviewedAt INTEGER NOT NULL DEFAULT 0;
                  ALTER TABLE words ADD COLUMN nextReviewAt INTEGER NOT NULL DEFAULT 0;",
                kind: MigrationKind::Up,
            },
        ]
    );
}

#[test]
fn schema_steps_are_numbered_in_order() {
    let steps = migrations();
    for (index, step) in steps.iter().enumerate() {
        assert_eq!(step.version, index as i64 + 1);
        assert_eq!(step.kind, MigrationKind::Up);
        assert!(!step.sql.is_empty());
    }
    assert!(steps[0].sql.starts_with("CREATE TABLE IF NOT EXISTS words"));
    for column in ["score", "createdAt", "lastReviewedAt", "nextReviewAt"] {
        assert!(steps[1].sql.contains(&format!("ADD COLUMN {} INTEGER NOT NULL DEFAULT 0", column)));
    }
}
