//! The Clockify records the client reads and writes.
use vstd::prelude::*;

verus! {

/// The authenticated Clockify user.
#[derive(Debug, Clone)]
pub struct User {
    pub id: String,
    pub email: String,
    pub name: String,
    pub active_workspace: String,
    pub default_workspace: String,
}

/// A Clockify workspace.
#[derive(Debug, Clone)]
pub struct Workspace {
    pub id: String,
    pub name: String,
}

/// A project inside a workspace.
#[derive(Debug, Clone)]
pub struct Project {
    pub id: String,
    pub name: String,
    pub client_id: Option<String>,
    pub color: String,
}

/// Start, end and ISO-8601 duration of a time entry; an entry without an end
/// is a running timer.
#[derive(Debug, Clone)]
pub struct TimeInterval {
    pub start: String,
    pub end: Option<String>,
    pub duration: Option<String>,
}

/// One logged (or running) stretch of work.
#[derive(Debug, Clone)]
pub struct TimeEntry {
    pub id: String,
    pub description: Option<String>,
    pub project_id: Option<String>,
    pub time_interval: TimeInterval,
}

impl TimeEntry {
    /// The entry is a running timer: it has no end yet.
    pub open spec fn is_running(self) -> bool {
        self.time_interval.end is None
    }

    /// The entry passes the project filter: every entry when no project is
    /// selected, otherwise those logged on the selected project.
    pub open spec fn matches_project(self, filter: Option<String>) -> bool {
        match filter {
            None => true,
            Some(p) => self.project_id matches Some(q) && q@ == p@,
        }
    }
}

} // verus!
