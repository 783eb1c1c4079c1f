//! The schema migration that creates the download list.
//!
//! The migration runner records a checksum of every statement it has applied
//! and refuses a database whose recorded checksum differs from the statement
//! it is handed. The text below is therefore fixed, character for character,
//! layout included.

use vstd::prelude::*;

verus! {

/// The connection string of the database that holds the download list.
pub const DATABASE_URL: &'static str = "sqlite:mydatabase.db";

/// The name under which the one migration is recorded.
pub const CREATE_DOWNLOAD_LIST_DESCRIPTION: &'static str = "create_download_list_table";

/// The statement that creates the `DownloadList` table where it is absent.
pub const CREATE_DOWNLOAD_LIST_SQL: &'static str = "CREATE TABLE IF NOT EXISTS DownloadList (
                id INTEGER PRIMARY KEY,
                unique_id TEXT NOT NULL,
                active BOOLEAN DEFAULT 1,
                failed BOOLEAN DEFAULT 0,
                completed BOOLEAN DEFAULT 0,
                format_id TEXT,
                web_url TEXT,
                title TEXT,
                tracking_message TEXT,
                isPaused BOOLEAN DEFAULT 0
            );";

/// The direction of a migration.
#[derive(Clone, Copy, Debug, PartialEq, Eq)]
pub enum MigrationKind {
    Up,
    Down,
}

/// One versioned schema change, as the migration runner takes it.
#[derive(Clone, Copy, Debug, PartialEq, Eq)]
pub struct Migration {
    pub version: i64,
    pub description: &'static str,
    pub sql: &'static str,
    pub kind: MigrationKind,
}

/// What a migration says, with its two texts as sequences of characters.
pub struct MigrationView {
    pub version: int,
    pub description: Seq<char>,
    pub sql: Seq<char>,
    pub kind: MigrationKind,
}

impl View for Migration {
    type V = MigrationView;

    open spec fn view(&self) -> MigrationView {
        MigrationView {
            version: self.version as int,
            description: self.description@,
            sql: self.sql@,
            kind: self.kind,
        }
    }
}

/// The migration of version 1: it creates the download list.
pub open spec fn create_download_list() -> MigrationView {
    MigrationView {
        version: 1,
        description: CREATE_DOWNLOAD_LIST_DESCRIPTION@,
        sql: CREATE_DOWNLOAD_LIST_SQL@,
        kind: MigrationKind::Up,
    }
}

/// The migrations of the database, in the order of their versions.
pub fn migrations() -> (list: Vec<Migration>)
    ensures
        list@.len() == 1,
        list@[0]@ == create_download_list(),
{
    let mut list: Vec<Migration> = Vec::new();
    list.push(
        Migration {
            version: 1,
            description: CREATE_DOWNLOAD_LIST_DESCRIPTION,
            sql: CREATE_DOWNLOAD_LIST_SQL,
            kind: MigrationKind::Up,
        },
    );
    list
}

} // verus!
