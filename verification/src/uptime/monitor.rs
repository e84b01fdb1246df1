//! What the monitor routes answer, given what the database returned.
#![allow(non_snake_case)]

use vstd::prelude::*;
use crate::http_status::{CREATED, INTERNAL_SERVER_ERROR, NOT_FOUND, OK};
use super::common::CreateMonitorRequest;

verus! {

/// The body of a pause or resume request.
pub struct PausePayload {
    pub paused: bool,
}

/// What a query for one of the user's monitors gave.
pub enum Fetched {
    Found,
    Missing,
    Failed,
}

/// An answer: a status with the queried rows as JSON, or a status with text.
pub enum MonitorReply {
    Json(u16),
    Text(u16, String),
}

/// The status of an answer and its text, if it is text.
pub open spec fn reply_view(r: MonitorReply) -> (u16, Option<Seq<char>>) {
    match r {
        MonitorReply::Json(status) => (status, None),
        MonitorReply::Text(status, t) => (status, Some(t@)),
    }
}

fn text_reply(status: u16, text: &str) -> (r: MonitorReply)
    ensures
        reply_view(r) == (status, Some(text@)),
{
    MonitorReply::Text(status, String::from_str(text))
}

/// The row a new monitor is stored as: the owner, the url as given, and the
/// period in seconds.
pub fn monitor_row(user_id: u128, req: &CreateMonitorRequest) -> (row: (u128, String, i32))
    ensures
        row.0 == user_id,
        row.1@ == req.url@,
        row.2 == req.period.seconds(),
{
    (user_id, req.url.clone(), req.period.as_seconds())
}

/// Creating a monitor: 201 with the new row, or 500.
pub fn create_monitor(inserted: bool) -> (r: MonitorReply)
    ensures
        reply_view(r) == if inserted {
            (CREATED, None)
        } else {
            (INTERNAL_SERVER_ERROR, Some("Failed to create monitor"@))
        },
{
    if inserted {
        MonitorReply::Json(CREATED)
    } else {
        text_reply(INTERNAL_SERVER_ERROR, "Failed to create monitor")
    }
}

/// Listing the user's monitors: 200 with the rows, or 500.
pub fn getAllMonitor(fetched: bool) -> (r: MonitorReply)
    ensures
        reply_view(r) == if fetched {
            (OK, None)
        } else {
            (INTERNAL_SERVER_ERROR, Some("Failed to fetch monitors"@))
        },
{
    if fetched {
        MonitorReply::Json(OK)
    } else {
        text_reply(INTERNAL_SERVER_ERROR, "Failed to fetch monitors")
    }
}

/// Fetching one monitor: 200 with the row, 404, or 500.
pub fn getMonitorById(fetched: Fetched) -> (r: MonitorReply)
    ensures
        reply_view(r) == match fetched {
            Fetched::Found => (OK, None),
            Fetched::Missing => (NOT_FOUND, Some("Monitor not found"@)),
            Fetched::Failed => (INTERNAL_SERVER_ERROR, Some("Failed to fetch monitor"@)),
        },
{
    match fetched {
        Fetched::Found => MonitorReply::Json(OK),
        Fetched::Missing => text_reply(NOT_FOUND, "Monitor not found"),
        Fetched::Failed => text_reply(INTERNAL_SERVER_ERROR, "Failed to fetch monitor"),
    }
}

/// Pausing or resuming a monitor: 200, 404, or 500.
pub fn toggleMonitor(updated: Fetched) -> (r: MonitorReply)
    ensures
        reply_view(r) == match updated {
            Fetched::Found => (OK, Some("Monitor pause status updated"@)),
            Fetched::Missing => (NOT_FOUND, Some("Monitor not found"@)),
            Fetched::Failed => (INTERNAL_SERVER_ERROR, Some("Failed to update monitor"@)),
        },
{
    match updated {
        Fetched::Found => text_reply(OK, "Monitor pause status updated"),
        Fetched::Missing => text_reply(NOT_FOUND, "Monitor not found"),
        Fetched::Failed => text_reply(INTERNAL_SERVER_ERROR, "Failed to update monitor"),
    }
}

/// Deleting a monitor: 200, 404, or 500.
pub fn deleteMonitor(deleted: Fetched) -> (r: MonitorReply)
    ensures
        reply_view(r) == match deleted {
            Fetched::Found => (OK, Some("Monitor deleted successfully"@)),
            Fetched::Missing => (NOT_FOUND, Some("Monitor not found"@)),
            Fetched::Failed => (INTERNAL_SERVER_ERROR, Some("Failed to delete monitor"@)),
        },
{
    match deleted {
        Fetched::Found => text_reply(OK, "Monitor deleted successfully"),
        Fetched::Missing => text_reply(NOT_FOUND, "Monitor not found"),
        Fetched::Failed => text_reply(INTERNAL_SERVER_ERROR, "Failed to delete monitor"),
    }
}

} // verus!
