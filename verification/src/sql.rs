//! The statements that a store on disk is driven with. The table's name is
//! written into the statement; key and value are bound when it runs.

use vstd::prelude::*;

verus! {

/// Where a store that lives in memory only is opened.
pub const MEMORY_STORE_URL: &'static str = "sqlite::memory:";

/// How many connections the pool of the memory store holds at most.
pub const MEMORY_STORE_CONNECTIONS: u32 = 5;

/// Creates the cache table if it is not there.
pub const CREATE_TABLE_STATEMENT: &'static str =
    "CREATE TABLE IF NOT EXISTS kv_cache (
                key TEXT PRIMARY KEY NOT NULL,
                value BLOB NOT NULL,
                updated_at INTEGER NOT NULL DEFAULT (strftime('%s', 'now'))
            )";

/// Copies the store to the file that is bound.
pub const BACKUP_STATEMENT: &'static str = "BACKUP TO ?";

/// The text of the statement that writes an entry of `table`.
pub open spec fn replace_text(table: Seq<char>) -> Seq<char> {
    "REPLACE INTO "@ + table + " (key, value, updated_at) VALUES (?, ?, strftime('%s', 'now'))"@
}

/// The text of the statement that reads an entry of `table`.
pub open spec fn select_text(table: Seq<char>) -> Seq<char> {
    "SELECT value FROM "@ + table + " WHERE key = ?"@
}

/// The text of the statement that deletes the entries of `table`.
pub open spec fn delete_text(table: Seq<char>) -> Seq<char> {
    "DELETE FROM "@ + table
}

/// The statement that writes an entry of `table`: an entry with the same
/// key is replaced, its time set to the time of the write.
pub fn replace_statement(table: &str) -> (statement: String)
    ensures
        statement@ == replace_text(table@),
{
    let mut statement = String::from_str("REPLACE INTO ");
    statement.append(table);
    statement.append(" (key, value, updated_at) VALUES (?, ?, strftime('%s', 'now'))");
    statement
}

/// The statement that reads the value of an entry of `table`.
pub fn select_statement(table: &str) -> (statement: String)
    ensures
        statement@ == select_text(table@),
{
    let mut statement = String::from_str("SELECT value FROM ");
    statement.append(table);
    statement.append(" WHERE key = ?");
    statement
}

/// The statement that deletes every entry of `table`.
pub fn delete_statement(table: &str) -> (statement: String)
    ensures
        statement@ == delete_text(table@),
{
    let mut statement = String::from_str("DELETE FROM ");
    statement.append(table);
    statement
}

/// The text that reports a failed write of `key`.
pub open spec fn set_failure_text(key: Seq<char>, cause: Seq<char>) -> Seq<char> {
    "Failed to set key '"@ + key + "' in SQLite cache. Cause: "@ + cause
}

/// The text that reports a failed read of `key`.
pub open spec fn get_failure_text(key: Seq<char>) -> Seq<char> {
    "SqliteCache: Failed to get key '"@ + key + "'"@
}

/// Reports a failed write of `key`.
pub fn set_failure(key: &str, cause: &str) -> (text: String)
    ensures
        text@ == set_failure_text(key@, cause@),
{
    let mut text = String::from_str("Failed to set key '");
    text.append(key);
    text.append("' in SQLite cache. Cause: ");
    text.append(cause);
    text
}

/// Reports a failed read of `key`.
pub fn get_failure(key: &str) -> (text: String)
    ensures
        text@ == get_failure_text(key@),
{
    let mut text = String::from_str("SqliteCache: Failed to get key '");
    text.append(key);
    text.append("'");
    text
}

} // verus!
