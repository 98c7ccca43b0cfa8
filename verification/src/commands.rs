//! The data carried by the task, preparation and blog command surfaces.
//!
//! The handlers that print and persist live in the surrounding
//! application; the records, their states and the parsing of priorities
//! are verified here.  Timestamps are whole milliseconds since the Unix
//! epoch.

use vstd::prelude::*;
use crate::history::{current_timestamp_ms, fresh_uuid_string};
use crate::text::{lower_seq, str_eq_ci};

verus! {

/// Importance of a task.
#[derive(Clone, Copy, Debug, PartialEq, Eq, Structural)]
pub enum Priority {
    Low,
    Medium,
    High,
}

/// Lifecycle state of a task.
#[derive(Clone, Copy, Debug, PartialEq, Eq, Structural)]
pub enum TaskStatus {
    Todo,
    InProgress,
    Complete,
}

/// Lifecycle state of a blog post.
#[derive(Clone, Copy, Debug, PartialEq, Eq, Structural)]
pub enum PostStatus {
    Draft,
    Published,
    Archived,
}

/// Lifecycle state of a preparation session.
#[derive(Clone, Copy, Debug, PartialEq, Eq, Structural)]
pub enum SessionStatus {
    Active,
    Completed,
    Paused,
    Cancelled,
}

/// The priority named by `s`, if any: `low`/`l`, `medium`/`med`/`m` and
/// `high`/`h`, ignoring ASCII case.
pub open spec fn priority_of(s: Seq<char>) -> Option<Priority> {
    let l = lower_seq(s);
    if l == lower_seq("low"@) || l == lower_seq("l"@) {
        Some(Priority::Low)
    } else if l == lower_seq("medium"@) || l == lower_seq("med"@) || l == lower_seq("m"@) {
        Some(Priority::Medium)
    } else if l == lower_seq("high"@) || l == lower_seq("h"@) {
        Some(Priority::High)
    } else {
        None
    }
}

/// The error of a failed priority parse.
#[derive(Clone, Copy, Debug, PartialEq, Eq, Structural)]
pub struct PriorityParseError;

impl Priority {
    /// Parse a priority name; every other text is rejected.
    pub fn parse(s: &str) -> (r: Result<Priority, PriorityParseError>)
        ensures
            match r {
                Ok(p) => priority_of(s@) == Some(p),
                Err(_) => priority_of(s@) is None,
            },
    {
        if str_eq_ci(s, "low") || str_eq_ci(s, "l") {
            Ok(Priority::Low)
        } else if str_eq_ci(s, "medium") || str_eq_ci(s, "med") || str_eq_ci(s, "m") {
            Ok(Priority::Medium)
        } else if str_eq_ci(s, "high") || str_eq_ci(s, "h") {
            Ok(Priority::High)
        } else {
            Err(PriorityParseError)
        }
    }
}

impl Priority {
    /// The short label written for this priority.
    pub fn label(&self) -> (r: String)
        ensures
            *self == Priority::Low ==> r@ == "LOW"@,
            *self == Priority::Medium ==> r@ == "MED"@,
            *self == Priority::High ==> r@ == "HIGH"@,
    {
        match self {
            Priority::Low => String::from_str("LOW"),
            Priority::Medium => String::from_str("MED"),
            Priority::High => String::from_str("HIGH"),
        }
    }
}

impl TaskStatus {
    /// The label written for this status.
    pub fn label(&self) -> (r: String)
        ensures
            *self == TaskStatus::Todo ==> r@ == "TODO"@,
            *self == TaskStatus::InProgress ==> r@ == "IN PROGRESS"@,
            *self == TaskStatus::Complete ==> r@ == "COMPLETE"@,
    {
        match self {
            TaskStatus::Todo => String::from_str("TODO"),
            TaskStatus::InProgress => String::from_str("IN PROGRESS"),
            TaskStatus::Complete => String::from_str("COMPLETE"),
        }
    }
}

impl core::str::FromStr for Priority {
    type Err = PriorityParseError;

    fn from_str(s: &str) -> Result<Priority, PriorityParseError> {
        Priority::parse(s)
    }
}

/// One task.
#[derive(Clone, Debug)]
pub struct Task {
    pub id: String,
    pub title: String,
    pub description: Option<String>,
    pub priority: Priority,
    pub status: TaskStatus,
    pub created_at_ms: u64,
    pub updated_at_ms: u64,
}

impl Task {
    /// A fresh task: to do, with a fresh identifier, created and updated
    /// at the same moment.
    pub fn new(title: String, description: Option<String>, priority: Priority) -> (r: Self)
        ensures
            r.id@.len() == 36,
            r.title@ == title@,
            r.description == description,
            r.priority == priority,
            r.status == TaskStatus::Todo,
            r.created_at_ms == r.updated_at_ms,
    {
        let now = current_timestamp_ms();
        Task {
            id: fresh_uuid_string(),
            title,
            description,
            priority,
            status: TaskStatus::Todo,
            created_at_ms: now,
            updated_at_ms: now,
        }
    }

    /// The colour name for the task priority.
    pub fn priority_color(&self) -> (r: String)
        ensures
            self.priority == Priority::High ==> r@ == "red"@,
            self.priority == Priority::Medium ==> r@ == "yellow"@,
            self.priority == Priority::Low ==> r@ == "green"@,
    {
        match self.priority {
            Priority::High => String::from_str("red"),
            Priority::Medium => String::from_str("yellow"),
            Priority::Low => String::from_str("green"),
        }
    }

    /// The marker character for the task status.
    pub fn status_icon(&self) -> (r: &'static str)
        ensures
            self.status == TaskStatus::Todo ==> r@ == "○"@,
            self.status == TaskStatus::InProgress ==> r@ == "◐"@,
            self.status == TaskStatus::Complete ==> r@ == "●"@,
    {
        match self.status {
            TaskStatus::Todo => "○",
            TaskStatus::InProgress => "◐",
            TaskStatus::Complete => "●",
        }
    }
}

/// One blog post.
#[derive(Clone, Debug)]
pub struct BlogPost {
    pub id: String,
    pub title: String,
    pub content: String,
    pub tags: Vec<String>,
    pub status: PostStatus,
    pub created_at_ms: u64,
    pub updated_at_ms: u64,
}

/// One preparation session.
#[derive(Clone, Debug)]
pub struct PrepSession {
    pub id: String,
    pub exam_type: String,
    pub session_name: String,
    pub duration_minutes: u32,
    pub status: SessionStatus,
    pub created_at_ms: u64,
    pub updated_at_ms: u64,
}

} // verus!
