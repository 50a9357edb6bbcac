use vstd::prelude::*;
use crate::evaluate::OpportunityRecord;

verus! {

#[verifier::external_type_specification]
#[verifier::external_body]
pub struct ExConnection(rusqlite::Connection);

#[verifier::external_type_specification]
#[verifier::external_body]
pub struct ExSqlError(rusqlite::Error);

/// Relies on rusqlite::Connection::open: opens, creating it if
/// absent, the database file at `path`. The outcome depends on the
/// disk, so nothing is promised of it.
#[verifier::external_body]
fn open_connection(path: &str) -> Result<rusqlite::Connection, rusqlite::Error> {
    rusqlite::Connection::open(path)
}

/// Relies on rusqlite::Connection::open_in_memory: opens a database
/// that lives only in this connection.
#[verifier::external_body]
fn open_memory_connection() -> Result<rusqlite::Connection, rusqlite::Error> {
    rusqlite::Connection::open_in_memory()
}

/// Relies on rusqlite::Connection::execute: runs one SQL statement
/// with no parameters; on success the number of rows changed. The
/// outcome depends on the database's state, so nothing is promised.
#[verifier::external_body]
fn execute_sql(conn: &rusqlite::Connection, sql: &str) -> Result<usize, rusqlite::Error> {
    conn.execute(sql, ())
}

/// Relies on rusqlite::Connection::execute: runs one SQL statement,
/// binding the four text parameters ?1 to ?4 in order.
#[verifier::external_body]
fn execute_sql4(
    conn: &rusqlite::Connection,
    sql: &str,
    p1: &str,
    p2: &str,
    p3: &str,
    p4: &str,
) -> Result<usize, rusqlite::Error> {
    conn.execute(sql, (p1, p2, p3, p4))
}

/// Relies on rusqlite::Connection::last_insert_rowid: the rowid of
/// the most recent successful insert on this connection.
#[verifier::external_body]
fn last_insert_id(conn: &rusqlite::Connection) -> i64 {
    conn.last_insert_rowid()
}

/// Relies on the std Display rendering of rusqlite::Error.
#[verifier::external_body]
fn describe_sql_error(e: &rusqlite::Error) -> String {
    format!("{}", e)
}

/// Why the store refused an operation, as the database reported it.
#[derive(Debug)]
pub struct StoreError {
    pub message: String,
}

/// Durable, append-only store of detected opportunities. Owns its
/// connection for as long as the store value lives; persistence
/// failures are returned to the caller, never panicked on, so the
/// sampling loop can log them and continue.
pub struct OpportunityStore {
    conn: rusqlite::Connection,
}

impl OpportunityStore {
    /// Open the store's database file, creating it if absent.
    pub fn open(path: &str) -> Result<OpportunityStore, StoreError> {
        match open_connection(path) {
            Ok(conn) => Ok(OpportunityStore { conn }),
            Err(e) => Err(StoreError { message: describe_sql_error(&e) }),
        }
    }

    /// Open a store that lives only in memory; its rows vanish with
    /// the store.
    pub fn open_in_memory() -> Result<OpportunityStore, StoreError> {
        match open_memory_connection() {
            Ok(conn) => Ok(OpportunityStore { conn }),
            Err(e) => Err(StoreError { message: describe_sql_error(&e) }),
        }
    }

    /// Create the backing table if it is absent. Safe to run any
    /// number of times: an existing table is kept, rows and all.
    pub fn init_db(&self) -> Result<(), StoreError> {
        let res = execute_sql(
            &self.conn,
            "CREATE TABLE IF NOT EXISTS arbitrage_bot (
            id INTEGER PRIMARY KEY AUTOINCREMENT,
            buy_dex TEXT,
            sell_dex TEXT,
            profit_usdc REAL,
            timestamp TEXT
        )",
        );
        match res {
            Ok(_) => Ok(()),
            Err(e) => Err(StoreError { message: describe_sql_error(&e) }),
        }
    }

    /// Append one opportunity as a single atomic insert; on success
    /// the store-assigned id of the new row. The record itself is
    /// never mutated, and nothing is ever updated or deleted.
    pub fn record(&self, rec: &OpportunityRecord) -> Result<i64, StoreError>
        requires
            rec.profit.wf(),
    {
        let profit = rec.profit.to_decimal_string();
        let res = execute_sql4(
            &self.conn,
            "INSERT INTO arbitrage_bot (buy_dex, sell_dex, profit_usdc, timestamp)
                 VALUES (?1, ?2, ?3, ?4)",
            rec.buy_venue.as_str(),
            rec.sell_venue.as_str(),
            profit.as_str(),
            rec.observed_at.as_str(),
        );
        match res {
            Ok(_) => Ok(last_insert_id(&self.conn)),
            Err(e) => Err(StoreError { message: describe_sql_error(&e) }),
        }
    }
}

} // verus!
