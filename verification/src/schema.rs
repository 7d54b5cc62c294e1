//! The schema of the flashcard store, as ordered migration steps.
//!
//! The steps are only declared here. The host hands them to its SQL engine,
//! which applies each one once and remembers it by version and by the exact
//! text of its statement, so neither may change once released.

use vstd::prelude::*;

verus! {

/// Connection string of the database that the steps belong to.
pub const WORDS_DATABASE: &'static str = "sqlite:words.db";

/// Statement of the first step: the table of words.
pub const CREATE_WORDS_TABLE: &'static str =
    "CREATE TABLE IF NOT EXISTS words (\n                id INTEGER PRIMARY KEY AUTOINCREMENT,\n                original TEXT NOT NULL,\n                translation TEXT NOT NULL,\n                article TEXT NOT NULL DEFAULT '',\n                created_at DATETIME DEFAULT CURRENT_TIMESTAMP\n            )";

/// Statements of the second step: the columns that spaced repetition needs.
pub const ADD_REPETITION_FIELDS: &'static str =
    "ALTER TABLE words ADD COLUMN score INTEGER NOT NULL DEFAULT 0;\n                  ALTER TABLE words ADD COLUMN createdAt INTEGER NOT NULL DEFAULT 0;\n                  ALTER TABLE words ADD COLUMN lastReviewedAt INTEGER NOT NULL DEFAULT 0;\n                  ALTER TABLE words ADD COLUMN nextReviewAt INTEGER NOT NULL DEFAULT 0;";

/// The direction of a step.
#[derive(Clone, Copy, Debug, PartialEq, Eq, Structural)]
pub enum MigrationKind {
    Up,
    Down,
}

/// One versioned change of the schema.
#[derive(Clone, Copy, Debug, PartialEq, Eq)]
pub struct Migration {
    pub version: i64,
    pub description: &'static str,
    pub sql: &'static str,
    pub kind: MigrationKind,
}

/// A step as contracts see it.
pub struct MigrationView {
    pub version: int,
    pub description: Seq<char>,
    pub sql: Seq<char>,
    pub kind: MigrationKind,
}

impl View for Migration {
    type V = MigrationView;

    open spec fn view(&self) -> MigrationView {
        MigrationView {
            version: self.version as int,
            description: self.description@,
            sql: self.sql@,
            kind: self.kind,
        }
    }
}

/// The views of a list of steps, in order.
pub open spec fn migration_views(steps: Seq<Migration>) -> Seq<MigrationView> {
    Seq::new(steps.len(), |i: int| steps[i]@)
}

/// The steps of the schema: first the table of words, then the columns for
/// spaced repetition.
pub open spec fn spec_migrations() -> Seq<MigrationView> {
    seq![
        MigrationView {
            version: 1,
            description: "create_words_table"@,
            sql: CREATE_WORDS_TABLE@,
            kind: MigrationKind::Up,
        },
        MigrationView {
            version: 2,
            description: "add_spaced_repetition_fields"@,
            sql: ADD_REPETITION_FIELDS@,
            kind: MigrationKind::Up,
        },
    ]
}

/// The steps are numbered from 1 without a gap, in the order in which they
/// apply, and every one of them is a step up.
pub proof fn migrations_are_ordered()
    ensures
        forall|i: int|
            0 <= i < spec_migrations().len() ==> (#[trigger] spec_migrations()[i]).version == i + 1
                && spec_migrations()[i].kind == MigrationKind::Up,
{
}

/// The schema's steps, in the order in which they apply.
pub fn migrations() -> (steps: Vec<Migration>)
    ensures
        migration_views(steps@) == spec_migrations(),
{
    let mut steps: Vec<Migration> = Vec::new();
    steps.push(
        Migration {
            version: 1,
            description: "create_words_table",
            sql: CREATE_WORDS_TABLE,
            kind: MigrationKind::Up,
        },
    );
    steps.push(
        Migration {
            version: 2,
            description: "add_spaced_repetition_fields",
            sql: ADD_REPETITION_FIELDS,
            kind: MigrationKind::Up,
        },
    );
    assert(migration_views(steps@) =~= spec_migrations());
    steps
}

} // verus!
