//! What a worker makes of a probe: the website's status, the message to
//! record, and whether the owner is to be alerted.

use vstd::prelude::*;
use super::common::WebsiteStatus;

verus! {

/// How a probe of a website ended: with an HTTP response (its status code
/// and that code's text, such as `404 Not Found`), or with a request error.
pub enum ProbeOutcome {
    Response { status: u16, status_text: String },
    Failed { error: String },
}

/// A status code reports success: 200 to 299.
pub open spec fn is_success(status: u16) -> bool {
    200 <= status <= 299
}

/// The status a probe shows and the message recorded with it.
pub open spec fn probe_result(outcome: ProbeOutcome) -> (WebsiteStatus, Option<Seq<char>>) {
    match outcome {
        ProbeOutcome::Response { status, status_text } => if is_success(status) {
            (WebsiteStatus::Up, None)
        } else {
            (WebsiteStatus::Down, Some("HTTP "@ + status_text@))
        },
        ProbeOutcome::Failed { error } => (WebsiteStatus::Down, Some(error@)),
    }
}

/// The status a probe shows and the message to record with it.
pub fn classify_probe(outcome: ProbeOutcome) -> (r: (WebsiteStatus, Option<String>))
    ensures
        (r.0, match r.1 {
            Some(m) => Some(m@),
            None => None,
        }) == probe_result(outcome),
{
    match outcome {
        ProbeOutcome::Response { status, status_text } => {
            if 200 <= status && status <= 299 {
                (WebsiteStatus::Up, None)
            } else {
                let mut msg = String::from_str("HTTP ");
                msg.append(status_text.as_str());
                (WebsiteStatus::Down, Some(msg))
            }
        },
        ProbeOutcome::Failed { error } => (WebsiteStatus::Down, Some(error)),
    }
}

/// The name of a status, as the services print it.
pub open spec fn status_text(s: WebsiteStatus) -> Seq<char> {
    match s {
        WebsiteStatus::Up => "Up"@,
        WebsiteStatus::Down => "Down"@,
        WebsiteStatus::Unknown => "Unknown"@,
    }
}

/// The name of a status: `Up`, `Down` or `Unknown`.
pub fn status_name(s: WebsiteStatus) -> (name: String)
    ensures
        name@ == status_text(s),
{
    match s {
        WebsiteStatus::Up => String::from_str("Up"),
        WebsiteStatus::Down => String::from_str("Down"),
        WebsiteStatus::Unknown => String::from_str("Unknown"),
    }
}

/// Whether a probe showing `current` alerts the owner, given the status of
/// the website's last recorded probe, and how the alert names the old
/// status: the first probe alerts only when the website is down; later
/// ones alert when the status differs from the last one.
pub open spec fn status_change(previous: Option<WebsiteStatus>, current: WebsiteStatus) -> (bool, Seq<char>) {
    match previous {
        None => if current == WebsiteStatus::Down {
            (true, "Initial Check (Down)"@)
        } else {
            (false, "None"@)
        },
        Some(p) => if p != current {
            (true, status_text(p))
        } else {
            (false, "None"@)
        },
    }
}

/// Whether to alert, and the old status to name in the alert.
pub fn detect_status_change(previous: Option<WebsiteStatus>, current: WebsiteStatus) -> (r: (bool, String))
    ensures
        (r.0, r.1@) == status_change(previous, current),
{
    match previous {
        None => {
            if current == WebsiteStatus::Down {
                (true, String::from_str("Initial Check (Down)"))
            } else {
                (false, String::from_str("None"))
            }
        },
        Some(p) => {
            if p != current {
                (true, status_name(p))
            } else {
                (false, String::from_str("None"))
            }
        },
    }
}

/// An alert is raised exactly when the status differs from the last
/// recorded one, or on a first probe that finds the website down; a
/// website that keeps its status never alerts twice in a row.
pub proof fn law_alert_iff_status_changes(previous: Option<WebsiteStatus>, current: WebsiteStatus)
    ensures
        status_change(previous, current).0 == match previous {
            None => current == WebsiteStatus::Down,
            Some(p) => p != current,
        },
        status_change(Some(current), current).0 == false,
{
}

/// A probe that got an HTTP response shows the website up exactly when the
/// status code lies in 200..=299, and then records no message; every other
/// code (a redirect, a client or a server error) shows it down with the
/// message `HTTP ` followed by the status text. A request that failed
/// shows it down with the error as the message.
pub proof fn law_probe_up_iff_success_code(status: u16, status_text: String, error: String)
    ensures
        (probe_result(ProbeOutcome::Response { status, status_text }).0 == WebsiteStatus::Up) <==> (
        200 <= status && status <= 299),
        200 <= status && status <= 299 ==> probe_result(
            ProbeOutcome::Response { status, status_text },
        ).1 is None,
        !(200 <= status && status <= 299) ==> probe_result(
            ProbeOutcome::Response { status, status_text },
        ) == (WebsiteStatus::Down, Some("HTTP "@ + status_text@)),
        probe_result(ProbeOutcome::Failed { error }) == (WebsiteStatus::Down, Some(error@)),
        probe_result(ProbeOutcome::Failed { error }).0 != WebsiteStatus::Unknown,
{
}

/// Statuses print as `Up`, `Down` and `Unknown`. An alert names the
/// status the website had before the change; an alert on the first probe
/// names `Initial Check (Down)`; when there is no alert the old status
/// reads `None`.
pub proof fn law_alert_names_the_old_status(previous: WebsiteStatus, current: WebsiteStatus)
    ensures
        status_text(WebsiteStatus::Up) == "Up"@,
        status_text(WebsiteStatus::Down) == "Down"@,
        status_text(WebsiteStatus::Unknown) == "Unknown"@,
        previous != current ==> status_change(Some(previous), current) == (true, status_text(previous)),
        status_change(None, WebsiteStatus::Down) == (true, "Initial Check (Down)"@),
        !status_change(Some(previous), current).0 ==> status_change(Some(previous), current).1
            == "None"@,
        current != WebsiteStatus::Down ==> status_change(None, current) == (false, "None"@),
{
}

} // verus!
