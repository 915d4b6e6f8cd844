//! The Clockify REST endpoints and request bodies the client uses; sending
//! them is left to the caller.
use crate::text::{append_str, owned};
use vstd::prelude::*;

verus! {

/// Root of the Clockify REST API.
pub open spec fn api_root() -> Seq<char> {
    "https://api.clockify.me/api/v1"@
}

/// The profile of the key's owner.
pub fn user_url() -> (r: String)
    ensures
        r@ == api_root() + "/user"@,
{
    let mut out = owned("https://api.clockify.me/api/v1");
    append_str(&mut out, "/user");
    out
}

/// The workspaces the user belongs to.
pub fn workspaces_url() -> (r: String)
    ensures
        r@ == api_root() + "/workspaces"@,
{
    let mut out = owned("https://api.clockify.me/api/v1");
    append_str(&mut out, "/workspaces");
    out
}

/// Up to a thousand projects of a workspace.
pub fn projects_url(workspace_id: &str) -> (r: String)
    ensures
        r@ == api_root() + "/workspaces/"@ + workspace_id@ + "/projects?page-size=1000"@,
{
    let mut out = owned("https://api.clockify.me/api/v1");
    append_str(&mut out, "/workspaces/");
    append_str(&mut out, workspace_id);
    append_str(&mut out, "/projects?page-size=1000");
    out
}

/// Up to a thousand time entries of a user between two timestamps.
pub fn time_entries_url(workspace_id: &str, user_id: &str, start_date: &str, end_date: &str) -> (r: String)
    ensures
        r@ == api_root() + "/workspaces/"@ + workspace_id@ + "/user/"@ + user_id@ + "/time-entries?start="@
            + start_date@ + "&end="@ + end_date@ + "&page-size=1000"@,
{
    let mut out = owned("https://api.clockify.me/api/v1");
    append_str(&mut out, "/workspaces/");
    append_str(&mut out, workspace_id);
    append_str(&mut out, "/user/");
    append_str(&mut out, user_id);
    append_str(&mut out, "/time-entries?start=");
    append_str(&mut out, start_date);
    append_str(&mut out, "&end=");
    append_str(&mut out, end_date);
    append_str(&mut out, "&page-size=1000");
    out
}

/// Where new time entries of a workspace are posted.
pub fn new_time_entry_url(workspace_id: &str) -> (r: String)
    ensures
        r@ == api_root() + "/workspaces/"@ + workspace_id@ + "/time-entries"@,
{
    let mut out = owned("https://api.clockify.me/api/v1");
    append_str(&mut out, "/workspaces/");
    append_str(&mut out, workspace_id);
    append_str(&mut out, "/time-entries");
    out
}

/// Where a user's running timer in a workspace is stopped.
pub fn stop_timer_url(workspace_id: &str, user_id: &str) -> (r: String)
    ensures
        r@ == api_root() + "/workspaces/"@ + workspace_id@ + "/user/"@ + user_id@ + "/time-entries"@,
{
    let mut out = owned("https://api.clockify.me/api/v1");
    append_str(&mut out, "/workspaces/");
    append_str(&mut out, workspace_id);
    append_str(&mut out, "/user/");
    append_str(&mut out, user_id);
    append_str(&mut out, "/time-entries");
    out
}

/// Body of a request that creates a time entry (without `end`, a running
/// timer); `project_id` is left out when absent.
pub struct TimeEntryRequest {
    pub start: String,
    pub end: Option<String>,
    pub description: String,
    pub project_id: Option<String>,
}

/// Body of a request that stops the running timer.
pub struct StopTimerRequest {
    pub end: String,
}

/// The body that starts a timer at `start`.
pub fn start_timer_request(start: &str, project_id: Option<&str>, description: &str) -> (r: TimeEntryRequest)
    ensures
        r.start@ == start@,
        r.end is None,
        r.description@ == description@,
        match project_id {
            Some(p) => r.project_id matches Some(q) && q@ == p@,
            None => r.project_id is None,
        },
{
    TimeEntryRequest {
        start: owned(start),
        end: None,
        description: owned(description),
        project_id: match project_id {
            Some(p) => Some(owned(p)),
            None => None,
        },
    }
}

/// The body that logs a finished entry from `start` to `end`.
pub fn create_entry_request(start: &str, end: &str, project_id: Option<&str>, description: &str) -> (r: TimeEntryRequest)
    ensures
        r.start@ == start@,
        r.end matches Some(e) && e@ == end@,
        r.description@ == description@,
        match project_id {
            Some(p) => r.project_id matches Some(q) && q@ == p@,
            None => r.project_id is None,
        },
{
    TimeEntryRequest {
        start: owned(start),
        end: Some(owned(end)),
        description: owned(description),
        project_id: match project_id {
            Some(p) => Some(owned(p)),
            None => None,
        },
    }
}

/// The body that stops the running timer at `end`.
pub fn stop_timer_request(end: &str) -> (r: StopTimerRequest)
    ensures
        r.end@ == end@,
{
    StopTimerRequest { end: owned(end) }
}

} // verus!
