//! The errors of the database layer, and which of them are worth a retry.
use vstd::prelude::*;

use crate::text::{chars_contains, chars_of, has_infix, push_str};

verus! {

/// An error of the database layer. A failure of the SQLite driver is held
/// by the text the driver gives for it.
#[derive(Clone, Debug)]
pub enum DbError {
    Libsql(String),
    Migration(String),
    ModelGuard(String),
    NotFound(String),
    InvalidInput(String),
}

/// The message of a database error.
pub open spec fn db_error_message(e: DbError) -> Seq<char> {
    match e {
        DbError::Libsql(m) => "SQLite failure: `"@ + m@ + "`"@,
        DbError::Migration(m) => "migration error: "@ + m@,
        DbError::ModelGuard(m) => "model guard error: "@ + m@,
        DbError::NotFound(m) => "not found: "@ + m@,
        DbError::InvalidInput(m) => "invalid input: "@ + m@,
    }
}

/// The error's message holds the driver's lock contention text.
pub open spec fn locked(e: DbError) -> bool {
    has_infix(db_error_message(e), "database is locked"@)
}

/// The error's message holds lock contention or the API misuse text that
/// the driver gives while many connections open at once.
pub open spec fn transient(e: DbError) -> bool {
    locked(e) || has_infix(db_error_message(e), "bad parameter or other API misuse"@)
}

impl DbError {
    /// The error's message.
    pub fn message(&self) -> (r: String)
        ensures
            r@ == db_error_message(*self),
    {
        let mut out = String::new();
        match self {
            DbError::Libsql(m) => {
                push_str(&mut out, "SQLite failure: `");
                push_str(&mut out, m.as_str());
                push_str(&mut out, "`");
            },
            DbError::Migration(m) => {
                push_str(&mut out, "migration error: ");
                push_str(&mut out, m.as_str());
            },
            DbError::ModelGuard(m) => {
                push_str(&mut out, "model guard error: ");
                push_str(&mut out, m.as_str());
            },
            DbError::NotFound(m) => {
                push_str(&mut out, "not found: ");
                push_str(&mut out, m.as_str());
            },
            DbError::InvalidInput(m) => {
                push_str(&mut out, "invalid input: ");
                push_str(&mut out, m.as_str());
            },
        }
        out
    }

    /// Whether the database was locked by another connection.
    pub fn is_locked(&self) -> (r: bool)
        ensures
            r == locked(*self),
    {
        let message = chars_of(self.message().as_str());
        chars_contains(&message, &chars_of("database is locked"))
    }

    /// Whether the error clears on retry: lock contention, or the API
    /// misuse the driver reports while many connections initialize at once.
    pub fn is_transient(&self) -> (r: bool)
        ensures
            r == transient(*self),
    {
        let message = chars_of(self.message().as_str());
        self.is_locked() || chars_contains(&message, &chars_of("bad parameter or other API misuse"))
    }
}

} // verus!
