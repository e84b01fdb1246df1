//! The alert mail the notifier sends when a website changes status.

use vstd::prelude::*;

verus! {

/// An alert mail: its subject and HTML body.
pub struct AlertEmail {
    pub subject: String,
    pub html_content: String,
}

/// The subject: a recovery notice when the new status is `Up`, an alert otherwise.
pub open spec fn alert_subject(url: Seq<char>, status: Seq<char>) -> Seq<char> {
    if status == "Up"@ {
        "🟢 Recovery: "@ + url + " is UP"@
    } else {
        "🚨 Alert: "@ + url + " is DOWN"@
    }
}

/// The heading colour: green when the new status is `Up`, red otherwise.
pub open spec fn alert_color(status: Seq<char>) -> Seq<char> {
    if status == "Up"@ {
        "#10b981"@
    } else {
        "#ef4444"@
    }
}

/// The HTML body for a change of `url` to `status` at `time`, with the
/// heading in `color`.
pub open spec fn alert_html(color: Seq<char>, url: Seq<char>, status: Seq<char>, time: Seq<char>) -> Seq<char> {
    "\n        <div style=\"font-family: sans-serif; padding: 20px; border: 1px solid #e2e8f0; border-radius: 8px; max-width: 600px;\">\n            <h2 style=\"color: "@
        + color
        + ";\">Website Status Change</h2>\n            <p>Your monitor for <strong>"@
        + url
        + "</strong> has changed status to <strong>"@
        + status
        + "</strong>.</p>\n            <div style=\"background: #f1f5f9; padding: 15px; border-radius: 4px; margin: 20px 0;\">\n                <strong>Status:</strong> "@
        + status
        + "<br/>\n                <strong>Time:</strong> "@
        + time
        + "\n            </div>\n            <p>Check your dashboard for more details.</p>\n            <a href=\"http://localhost:3000/dashboard\" style=\"display: inline-block; background: #000; color: #fff; padding: 10px 20px; text-decoration: none; border-radius: 6px;\">View Dashboard</a>\n        </div>\n        "@
}

/// Whether `status` is the text `Up`.
fn is_up(status: &str) -> (up: bool)
    ensures
        up == (status@ == "Up"@),
{
    String::from_str(status) == String::from_str("Up")
}

/// The HTML body for a change of `url` to `status` at `time`.
pub fn alert_html_content(color: &str, url: &str, status: &str, time: &str) -> (html: String)
    ensures
        html@ == alert_html(color@, url@, status@, time@),
{
    let mut html = String::from_str("\n        <div style=\"font-family: sans-serif; padding: 20px; border: 1px solid #e2e8f0; border-radius: 8px; max-width: 600px;\">\n            <h2 style=\"color: ");
    html.append(color);
    html.append(";\">Website Status Change</h2>\n            <p>Your monitor for <strong>");
    html.append(url);
    html.append("</strong> has changed status to <strong>");
    html.append(status);
    html.append("</strong>.</p>\n            <div style=\"background: #f1f5f9; padding: 15px; border-radius: 4px; margin: 20px 0;\">\n                <strong>Status:</strong> ");
    html.append(status);
    html.append("<br/>\n                <strong>Time:</strong> ");
    html.append(time);
    html.append("\n            </div>\n            <p>Check your dashboard for more details.</p>\n            <a href=\"http://localhost:3000/dashboard\" style=\"display: inline-block; background: #000; color: #fff; padding: 10px 20px; text-decoration: none; border-radius: 6px;\">View Dashboard</a>\n        </div>\n        ");
    html
}

/// The mail announcing that `url` changed to `status` at `time` (as RFC 2822 text).
pub fn compose_alert_email(url: &str, status: &str, time: &str) -> (mail: AlertEmail)
    ensures
        mail.subject@ == alert_subject(url@, status@),
        mail.html_content@ == alert_html(alert_color(status@), url@, status@, time@),
{
    let up = is_up(status);
    let subject = if up {
        let mut s = String::from_str("🟢 Recovery: ");
        s.append(url);
        s.append(" is UP");
        s
    } else {
        let mut s = String::from_str("🚨 Alert: ");
        s.append(url);
        s.append(" is DOWN");
        s
    };
    let color = if up {
        "#10b981"
    } else {
        "#ef4444"
    };
    let html_content = alert_html_content(color, url, status, time);
    AlertEmail { subject, html_content }
}

/// `part` occurs in `text` at some position.
pub open spec fn occurs_in(part: Seq<char>, text: Seq<char>) -> bool {
    exists|i: int| 0 <= i && i + part.len() <= text.len() && #[trigger] text.subrange(i, i + part.len()) == part
}

/// `part` occurs in any text made of something, `part`, and something else.
pub proof fn lemma_occurs_between(front: Seq<char>, part: Seq<char>, back: Seq<char>)
    ensures
        occurs_in(part, front + part + back),
{
    let text = front + part + back;
    assert(text.subrange(front.len() as int, (front.len() + part.len()) as int) =~= part);
}

/// The mail's subject is a recovery notice naming the url exactly when
/// the new status is `Up`, and a down alert naming the url for any other
/// status; the heading is green for `Up` and red otherwise; and the body
/// names the url, the new status and the time.
pub proof fn law_alert_mail(url: Seq<char>, status: Seq<char>, time: Seq<char>)
    ensures
        status == "Up"@ ==> alert_subject(url, status) == "🟢 Recovery: "@ + url + " is UP"@,
        status != "Up"@ ==> alert_subject(url, status) == "🚨 Alert: "@ + url + " is DOWN"@,
        status == "Up"@ ==> alert_color(status) == "#10b981"@,
        status != "Up"@ ==> alert_color(status) == "#ef4444"@,
        occurs_in(url, alert_subject(url, status)),
        occurs_in(url, alert_html(alert_color(status), url, status, time)),
        occurs_in(status, alert_html(alert_color(status), url, status, time)),
        occurs_in(time, alert_html(alert_color(status), url, status, time)),
        occurs_in(alert_color(status), alert_html(alert_color(status), url, status, time)),
{
    let color = alert_color(status);
    let html = alert_html(color, url, status, time);
    if status == "Up"@ {
        lemma_occurs_between("🟢 Recovery: "@, url, " is UP"@);
    } else {
        lemma_occurs_between("🚨 Alert: "@, url, " is DOWN"@);
    }
    let a = "\n        <div style=\"font-family: sans-serif; padding: 20px; border: 1px solid #e2e8f0; border-radius: 8px; max-width: 600px;\">\n            <h2 style=\"color: "@;
    let b = ";\">Website Status Change</h2>\n            <p>Your monitor for <strong>"@;
    let c = "</strong> has changed status to <strong>"@;
    let d = "</strong>.</p>\n            <div style=\"background: #f1f5f9; padding: 15px; border-radius: 4px; margin: 20px 0;\">\n                <strong>Status:</strong> "@;
    let e = "<br/>\n                <strong>Time:</strong> "@;
    let f = "\n            </div>\n            <p>Check your dashboard for more details.</p>\n            <a href=\"http://localhost:3000/dashboard\" style=\"display: inline-block; background: #000; color: #fff; padding: 10px 20px; text-decoration: none; border-radius: 6px;\">View Dashboard</a>\n        </div>\n        "@;
    assert(html == a + color + (b + url + c + status + d + status + e + time + f));
    lemma_occurs_between(a, color, b + url + c + status + d + status + e + time + f);
    assert(html =~= (a + color + b) + url + (c + status + d + status + e + time + f));
    lemma_occurs_between(a + color + b, url, c + status + d + status + e + time + f);
    assert(html =~= (a + color + b + url + c) + status + (d + status + e + time + f));
    lemma_occurs_between(a + color + b + url + c, status, d + status + e + time + f);
    assert(html =~= (a + color + b + url + c + status + d + status + e) + time + f);
    lemma_occurs_between(a + color + b + url + c + status + d + status + e, time, f);
}

} // verus!
