//! Records shared by the uptime monitor's services.

use vstd::prelude::*;
use crate::uuid_text::{spec_uuid_parse, uuid_hyphenated, uuid_parse, uuid_to_string};

verus! {

/// The outcome of probing a website.
#[derive(PartialEq, Eq, Structural, Clone, Copy, Debug)]
pub enum WebsiteStatus {
    Up,
    Down,
    Unknown,
}

/// An instant: whole seconds since the Unix epoch and the nanoseconds
/// within that second, a billion or more while a leap second lasts.
#[derive(PartialEq, Eq, Structural, Clone, Copy, Debug)]
pub struct Timestamp {
    pub secs: i64,
    pub nanos: u32,
}

/// A registered user.
pub struct User {
    pub id: u128,
    pub email: String,
    pub password_hash: String,
    pub name: String,
    pub created_at: Timestamp,
}

/// A monitored website: checked every `period` seconds unless paused.
pub struct Monitor {
    pub id: u128,
    pub url: String,
    pub user_id: u128,
    pub period: i32,
    pub last_heartbeat: Option<Timestamp>,
    pub paused: bool,
    pub created_at: Timestamp,
}

/// The recorded outcome of one probe.
pub struct MonitorTick {
    pub id: u128,
    pub monitor_id: u128,
    pub response_time_ms: i32,
    pub status: WebsiteStatus,
    pub message: Option<String>,
    pub created_at: Timestamp,
}

/// What a client signs up with.
pub struct SignUpData {
    pub email: String,
    pub password: String,
    pub name: String,
}

/// What a client signs in with.
pub struct SignInData {
    pub email: String,
    pub password: String,
}

/// A token together with the user it was issued to.
pub struct AuthResponse {
    pub token: String,
    pub user: UserResponse,
}

/// What clients see of a user.
pub struct UserResponse {
    pub id: u128,
    pub email: String,
    pub name: String,
}

/// How often a website is checked.
#[derive(PartialEq, Eq, Structural, Clone, Copy, Debug)]
pub enum CheckPeriod {
    OneMin,
    ThreeMin,
}

impl CheckPeriod {
    /// The period in seconds.
    pub open spec fn seconds(&self) -> i32 {
        match self {
            CheckPeriod::OneMin => 60,
            CheckPeriod::ThreeMin => 180,
        }
    }

    /// The period in seconds: 60 or 180.
    pub fn as_seconds(&self) -> (s: i32)
        ensures
            s == self.seconds(),
    {
        match self {
            CheckPeriod::OneMin => 60,
            CheckPeriod::ThreeMin => 180,
        }
    }
}

/// A website a client asks to monitor.
pub struct CreateMonitorRequest {
    pub url: String,
    pub period: CheckPeriod,
}

/// The text a queued job names monitor `id` by: its hyphenated lowercase
/// UUID, which [`parse_monitor_id`] reads back as `id`.
pub fn monitor_id_text(id: u128) -> (text: String)
    ensures
        text@ == uuid_hyphenated(id),
        spec_uuid_parse(text@) == Some(id),
{
    uuid_to_string(id)
}

/// The monitor a queued job names, read as a UUID; `None` when the text is
/// not one.
pub fn parse_monitor_id(text: &str) -> (id: Option<u128>)
    ensures
        id == spec_uuid_parse(text@),
{
    uuid_parse(text)
}

/// A one-minute period is 60 seconds and a three-minute one 180.
pub proof fn law_check_periods_in_seconds()
    ensures
        CheckPeriod::OneMin.seconds() == 60,
        CheckPeriod::ThreeMin.seconds() == 180,
{
}

} // verus!
