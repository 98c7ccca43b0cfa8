//! Command-history records.
//!
//! The persisted store itself lives in the surrounding application; the
//! record shape and its construction are verified here.  Timestamps are
//! whole milliseconds since the Unix epoch.

use vstd::prelude::*;

verus! {

/// Handle naming the on-disk history database; all access to the store
/// happens in the surrounding application.
#[derive(Clone, Debug)]
pub struct Database {
    pub db_path: String,
}

impl Database {
    /// A handle for the database at `db_path`.
    pub fn new(db_path: String) -> (r: Self)
        ensures
            r.db_path@ == db_path@,
    {
        Database { db_path }
    }
}

/// The lifecycle state of one command execution.
#[derive(Clone, Debug, PartialEq, Eq, Structural)]
pub enum ExecutionStatus {
    Running,
    Success,
    Error,
    Cancelled,
}

/// One executed command, as recorded in the history.
#[derive(Clone, Debug)]
pub struct CommandExecution {
    pub id: String,
    pub command: String,
    pub output: String,
    pub status: ExecutionStatus,
    pub timestamp_ms: u64,
    pub duration_ms: u64,
    pub agent_query: Option<String>,
}

/// Relies on `uuid::Uuid::new_v4` and its `Display` form: a fresh random
/// identifier rendered in the 36-character hyphenated format.  The value
/// is random; only its length is stated.
#[verifier::external_body]
pub(crate) fn fresh_uuid_string() -> (r: String)
    ensures
        r@.len() == 36,
{
    uuid::Uuid::new_v4().to_string()
}

/// Relies on `chrono::Utc::now` and `timestamp_millis`: the current wall
/// clock.  Nothing is promised of the value.
#[verifier::external_body]
pub fn current_timestamp_ms() -> (r: u64)
{
    chrono::Utc::now().timestamp_millis() as u64
}

impl CommandExecution {
    /// A fresh record for `command`: running, with empty output, a zero
    /// duration, a fresh identifier and the current time.
    pub fn new(command: String, agent_query: Option<String>) -> (r: Self)
        ensures
            r.id@.len() == 36,
            r.command@ == command@,
            r.output@.len() == 0,
            r.status == ExecutionStatus::Running,
            r.duration_ms == 0,
            r.agent_query == agent_query,
    {
        CommandExecution {
            id: fresh_uuid_string(),
            command,
            output: String::new(),
            status: ExecutionStatus::Running,
            timestamp_ms: current_timestamp_ms(),
            duration_ms: 0,
            agent_query,
        }
    }
}

} // verus!
