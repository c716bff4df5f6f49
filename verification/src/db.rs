//! The encrypted SQLite store: opening it, its schema, and the few raw
//! operations on which every query is built.

use vstd::prelude::*;
use crate::error::RatariaError;
use crate::text::push_text;
use crate::store::{Store, foreign_keys_enforced, store_of};

verus! {

/// A connection to a SQLite database (`rusqlite`).
#[verifier::external_type_specification]
#[verifier::external_body]
pub struct ExConnection(rusqlite::Connection);

/// A SQL parameter value as `rusqlite` binds it.
#[verifier::external_type_specification]
#[verifier::external_body]
pub struct ExSqlParam(rusqlite::types::Value);

/// A file system path.
#[verifier::external_type_specification]
#[verifier::external_body]
pub struct ExPathBuf(std::path::PathBuf);

/// The tables of the tracker.
pub const SCHEMA_V1: &'static str = "
    CREATE TABLE IF NOT EXISTS engagements (
        id          TEXT PRIMARY KEY,
        name        TEXT NOT NULL UNIQUE,
        description TEXT,
        created_at  TEXT NOT NULL,
        updated_at  TEXT NOT NULL
    );

    CREATE TABLE IF NOT EXISTS targets (
        id            TEXT PRIMARY KEY,
        engagement_id TEXT NOT NULL REFERENCES engagements(id) ON DELETE CASCADE,
        domain        TEXT NOT NULL,
        created_at    TEXT NOT NULL
    );

    CREATE TABLE IF NOT EXISTS subdomains (
        id            TEXT PRIMARY KEY,
        target_id     TEXT NOT NULL REFERENCES targets(id) ON DELETE CASCADE,
        subdomain     TEXT NOT NULL,
        status        TEXT NOT NULL DEFAULT 'not-visited',
        notes         TEXT,
        status_code   INTEGER,
        title         TEXT,
        created_at    TEXT NOT NULL,
        updated_at    TEXT NOT NULL,
        UNIQUE(target_id, subdomain)
    );

    CREATE TABLE IF NOT EXISTS technologies (
        id           TEXT PRIMARY KEY,
        subdomain_id TEXT NOT NULL REFERENCES subdomains(id) ON DELETE CASCADE,
        name         TEXT NOT NULL,
        version      TEXT,
        created_at   TEXT NOT NULL
    );

    CREATE TABLE IF NOT EXISTS tags (
        id           TEXT PRIMARY KEY,
        subdomain_id TEXT NOT NULL REFERENCES subdomains(id) ON DELETE CASCADE,
        name         TEXT NOT NULL,
        created_at   TEXT NOT NULL,
        UNIQUE(subdomain_id, name)
    );

    CREATE TABLE IF NOT EXISTS urls (
        id           TEXT PRIMARY KEY,
        subdomain_id TEXT NOT NULL REFERENCES subdomains(id) ON DELETE CASCADE,
        url          TEXT NOT NULL,
        url_type     TEXT NOT NULL DEFAULT 'unknown',
        created_at   TEXT NOT NULL,
        UNIQUE(subdomain_id, url)
    );

    CREATE TABLE IF NOT EXISTS ips (
        id         TEXT PRIMARY KEY,
        target_id  TEXT NOT NULL REFERENCES targets(id) ON DELETE CASCADE,
        ip         TEXT NOT NULL,
        created_at TEXT NOT NULL,
        UNIQUE(target_id, ip)
    );

    CREATE TABLE IF NOT EXISTS asns (
        id         TEXT PRIMARY KEY,
        target_id  TEXT NOT NULL REFERENCES targets(id) ON DELETE CASCADE,
        asn        TEXT NOT NULL,
        org        TEXT,
        created_at TEXT NOT NULL,
        UNIQUE(target_id, asn)
    );

    CREATE TABLE IF NOT EXISTS screenshots (
        id           TEXT PRIMARY KEY,
        subdomain_id TEXT NOT NULL REFERENCES subdomains(id) ON DELETE CASCADE,
        file_path    TEXT NOT NULL,
        created_at   TEXT NOT NULL
    );

    CREATE TABLE IF NOT EXISTS scan_history (
        id         TEXT PRIMARY KEY,
        target_id  TEXT NOT NULL REFERENCES targets(id) ON DELETE CASCADE,
        source     TEXT NOT NULL,
        records    INTEGER NOT NULL DEFAULT 0,
        imported_at TEXT NOT NULL
    );

    CREATE TABLE IF NOT EXISTS schema_version (
        version INTEGER PRIMARY KEY
    );

    INSERT OR IGNORE INTO schema_version (version) VALUES (1);
";

/// The connection settings of an opened store.
pub const SESSION_PRAGMAS: &'static str = "
            PRAGMA journal_mode = WAL;
            PRAGMA foreign_keys = ON;
            PRAGMA synchronous = NORMAL;
        ";

/// The connection settings of a store held in memory.
pub const MEMORY_PRAGMAS: &'static str = "
            PRAGMA journal_mode = WAL;
            PRAGMA foreign_keys = ON;
        ";

/// An open tracker store. Its connection always enforces foreign keys.
pub struct Database {
    pub(crate) conn: rusqlite::Connection,
}

impl Database {
    /// Whether the store's connection enforces foreign keys, so that deletes
    /// cascade; every opened store does.
    pub open(crate) spec fn wf(self) -> bool {
        foreign_keys_enforced(self.conn)
    }

    /// The tables of the store.
    pub open(crate) spec fn tables(self) -> Store {
        store_of(self.conn)
    }
}

/// `rusqlite`'s `Connection::open`. Whether the file opens depends on the
/// file system, so nothing is stated of the result.
#[verifier::external_body]
fn connection_open(path: &std::path::PathBuf) -> (r: Result<rusqlite::Connection, rusqlite::Error>) {
    rusqlite::Connection::open(path)
}

/// A store with no rows in any table.
pub open spec fn empty_store() -> Store {
    Store {
        engagements: Map::empty(),
        targets: Map::empty(),
        subdomains: Map::empty(),
        tags: Map::empty(),
        technologies: Map::empty(),
        urls: Map::empty(),
        ips: Map::empty(),
        asns: Map::empty(),
        screenshots: Map::empty(),
    }
}

/// `rusqlite`'s `Connection::open_in_memory`: a new database that lives in
/// memory, private to this connection, so it starts with no rows.
#[verifier::external_body]
fn connection_open_in_memory() -> (r: Result<rusqlite::Connection, rusqlite::Error>)
    ensures
        r matches Ok(c) ==> store_of(c) == empty_store(),
{
    rusqlite::Connection::open_in_memory()
}

/// `Connection::execute_batch` with the key of a store in memory
/// (`PRAGMA key = 'test_key';`). A key statement writes no row.
#[verifier::external_body]
fn apply_memory_key(conn: &mut rusqlite::Connection) -> (r: Result<(), rusqlite::Error>)
    ensures
        store_of(*final(conn)) == store_of(*old(conn)),
{
    conn.execute_batch("PRAGMA key = 'test_key';")
}

/// `Connection::execute_batch` with a `PRAGMA key` statement. What the store
/// then holds is whatever the key unlocks, so nothing is stated of it.
#[verifier::external_body]
fn apply_key(conn: &mut rusqlite::Connection, pragma: &str) -> (r: Result<(), rusqlite::Error>) {
    conn.execute_batch(pragma)
}

/// `Connection::execute_batch` with the settings of a store on disk; they
/// include `PRAGMA foreign_keys = ON`, which SQLite documents as turning on
/// foreign key enforcement. Settings leave the tables as they are.
#[verifier::external_body]
fn apply_session_pragmas(conn: &mut rusqlite::Connection) -> (r: Result<(), rusqlite::Error>)
    ensures
        store_of(*final(conn)) == store_of(*old(conn)),
        r is Ok ==> foreign_keys_enforced(*final(conn)),
{
    conn.execute_batch(SESSION_PRAGMAS)
}

/// `Connection::execute_batch` with the settings of a store in memory; they
/// include `PRAGMA foreign_keys = ON`. Settings leave the tables as they are.
#[verifier::external_body]
fn apply_memory_pragmas(conn: &mut rusqlite::Connection) -> (r: Result<(), rusqlite::Error>)
    ensures
        store_of(*final(conn)) == store_of(*old(conn)),
        r is Ok ==> foreign_keys_enforced(*final(conn)),
{
    conn.execute_batch(MEMORY_PRAGMAS)
}

/// `Connection::execute_batch` with the schema: it creates the tables that
/// do not exist yet (empty) and leaves the rows of those that do.
#[verifier::external_body]
fn create_tables(conn: &mut rusqlite::Connection) -> (r: Result<(), rusqlite::Error>)
    ensures
        store_of(*final(conn)) == store_of(*old(conn)),
        foreign_keys_enforced(*final(conn)) == foreign_keys_enforced(*old(conn)),
{
    conn.execute_batch(SCHEMA_V1)
}

/// The statement that hands the store its key.
pub open spec fn key_pragma_text(password: Seq<char>) -> Seq<char> {
    "PRAGMA key = '"@ + password + "';"@
}

/// The statement that hands the store its key: `PRAGMA key = '<password>';`.
pub fn key_pragma(password: &str) -> (r: String)
    ensures
        r@ == key_pragma_text(password@),
{
    let mut s = String::new();
    push_text(&mut s, "PRAGMA key = '");
    push_text(&mut s, password);
    push_text(&mut s, "';");
    s
}

impl Database {
    /// Opens (or creates) the encrypted store at `db_path`, keyed with
    /// `password`, turns foreign keys on and makes sure its tables exist. Any
    /// failure of the store is returned as `RatariaError::Database`.
    pub fn open(db_path: &std::path::PathBuf, password: &str) -> (r: Result<Database, RatariaError>)
        ensures
            r matches Ok(db) ==> db.wf(),
            r matches Err(e) ==> e is Database,
    {
        let mut conn = match connection_open(db_path) {
            Ok(c) => c,
            Err(e) => return Err(RatariaError::Database(e)),
        };
        let key = key_pragma(password);
        if let Err(e) = apply_key(&mut conn, key.as_str()) {
            return Err(RatariaError::Database(e));
        }
        if let Err(e) = apply_session_pragmas(&mut conn) {
            return Err(RatariaError::Database(e));
        }
        if let Err(e) = create_tables(&mut conn) {
            return Err(RatariaError::Database(e));
        }
        Ok(Database { conn })
    }

    /// Opens a fresh store in memory, keyed, with foreign keys on and its
    /// tables, all empty.
    pub fn open_in_memory() -> (r: Result<Database, RatariaError>)
        ensures
            r matches Ok(db) ==> db.wf() && db.tables() == empty_store(),
            r matches Err(e) ==> e is Database,
    {
        let mut conn = match connection_open_in_memory() {
            Ok(c) => c,
            Err(e) => return Err(RatariaError::Database(e)),
        };
        if let Err(e) = apply_memory_key(&mut conn) {
            return Err(RatariaError::Database(e));
        }
        if let Err(e) = apply_memory_pragmas(&mut conn) {
            return Err(RatariaError::Database(e));
        }
        if let Err(e) = create_tables(&mut conn) {
            return Err(RatariaError::Database(e));
        }
        Ok(Database { conn })
    }
}

} // verus!
