use backend_lab::http_status::{CONFLICT, CREATED, INTERNAL_SERVER_ERROR, NOT_FOUND, OK, UNAUTHORIZED};
use backend_lab::uptime::api::health_check;
use backend_lab::uptime::auth::{hash_signup_password, signin, signup, try_signin, Reply, SigninLookup, UserRecord};
use backend_lab::uptime::common::{
    monitor_id_text, parse_monitor_id, CheckPeriod, CreateMonitorRequest, Monitor, Timestamp, UserResponse,
    WebsiteStatus,
};
use backend_lab::uptime::jwt::check_token;
use backend_lab::uptime::monitor::{
    create_monitor, deleteMonitor, getAllMonitor, getMonitorById, monitor_row, toggleMonitor, Fetched,
    MonitorReply,
};
use backend_lab::uptime::notifier::compose_alert_email;
use backend_lab::uptime::producer::{due_monitors, is_due, seconds_between};
use backend_lab::uptime::worker::{classify_probe, detect_status_change, status_name, ProbeOutcome};

const SECRET: &str = "uptime-secret";
const NOW: u64 = 1_700_000_000;
const ALICE: u128 = 0x1234_5678_9abc_def0_1234_5678_9abc_def0;

fn ts(secs: i64, nanos: u32) -> Timestamp {
    Timestamp { secs, nanos }
}

fn monitor(id: u128, period: i32, last: Option<Timestamp>, paused: bool) -> Monitor {
    Monitor {
        id,
        url: format!("https://site{}.example", id),
        user_id: ALICE,
        period,
        last_heartbeat: last,
        paused,
        created_at: ts(0, 0),
    }
}

#[test]
fn check_periods_in_seconds() {
    assert_eq!(CheckPeriod::OneMin.as_seconds(), 60);
    assert_eq!(CheckPeriod::ThreeMin.as_seconds(), 180);
}

#[test]
fn health_route_text() {
    assert_eq!(health_check(), "Status: OK");
}

#[test]
fn signup_issues_a_token_or_conflicts() {
    let user = UserResponse { id: ALICE, email: "a@example.com".to_string(), name: "Alice".to_string() };
    match signup(Some(user), SECRET, NOW) {
        Reply::Auth(status, auth) => {
            assert_eq!(status, CREATED);
            assert_eq!(auth.user.id, ALICE);
            assert_eq!(auth.user.email, "a@example.com");
            assert_eq!(auth.user.name, "Alice");
            assert_eq!(check_token(&auth.token, SECRET, NOW), Some(ALICE));
        },
        Reply::Text(..) => panic!("token expected"),
    }
    match signup(None, SECRET, NOW) {
        Reply::Text(status, text) => {
            assert_eq!(status, CONFLICT);
            assert_eq!(text, "user already exists");
        },
        Reply::Auth(..) => panic!("conflict expected"),
    }
}

#[test]
fn signin_with_the_signup_password_succeeds() {
    let hash = hash_signup_password("correct horse").expect("hashes");
    assert_ne!(hash, "correct horse");
    assert_eq!(hash.len(), 60);
    assert!(hash.starts_with("$2b$12$"));
    let record = |hash: &str| UserRecord {
        id: ALICE,
        password_hash: hash.to_string(),
        name: "Alice".to_string(),
        email: "a@example.com".to_string(),
    };
    match signin(SigninLookup::Found(record(&hash)), "correct horse", SECRET, NOW) {
        Reply::Auth(status, auth) => {
            assert_eq!(status, OK);
            assert!(!auth.token.is_empty());
            assert_eq!(check_token(&auth.token, SECRET, NOW), Some(ALICE));
            assert_eq!(check_token(&auth.token, SECRET, NOW + 86_400 + 60), Some(ALICE));
            assert_eq!(check_token(&auth.token, SECRET, NOW + 86_400 + 61), None);
            assert_eq!(check_token(&auth.token, "another secret", NOW), None);
        },
        Reply::Text(..) => panic!("token expected"),
    }
    match try_signin(SigninLookup::Found(record(&hash)), "wrong", SECRET, NOW) {
        Some(Reply::Text(status, text)) => {
            assert_eq!(status, UNAUTHORIZED);
            assert_eq!(text, "Invalid credentials");
        },
        _ => panic!("refusal expected"),
    }
    match try_signin(SigninLookup::NotFound, "x", SECRET, NOW) {
        Some(Reply::Text(status, text)) => {
            assert_eq!(status, NOT_FOUND);
            assert_eq!(text, "User not found");
        },
        _ => panic!("not found expected"),
    }
    match try_signin(SigninLookup::Failed, "x", SECRET, NOW) {
        Some(Reply::Text(status, text)) => {
            assert_eq!(status, INTERNAL_SERVER_ERROR);
            assert_eq!(text, "Internal server error");
        },
        _ => panic!("server error expected"),
    }
    assert!(try_signin(SigninLookup::Found(record("$$bogus")), "x", SECRET, NOW).is_none());
}

fn text_of(r: MonitorReply) -> (u16, Option<String>) {
    match r {
        MonitorReply::Json(status) => (status, None),
        MonitorReply::Text(status, t) => (status, Some(t)),
    }
}

#[test]
fn monitor_route_replies() {
    assert_eq!(text_of(create_monitor(true)), (CREATED, None));
    assert_eq!(text_of(create_monitor(false)), (INTERNAL_SERVER_ERROR, Some("Failed to create monitor".to_string())));
    assert_eq!(text_of(getAllMonitor(true)), (OK, None));
    assert_eq!(text_of(getAllMonitor(false)), (INTERNAL_SERVER_ERROR, Some("Failed to fetch monitors".to_string())));
    assert_eq!(text_of(getMonitorById(Fetched::Found)), (OK, None));
    assert_eq!(text_of(getMonitorById(Fetched::Missing)), (NOT_FOUND, Some("Monitor not found".to_string())));
    assert_eq!(text_of(getMonitorById(Fetched::Failed)), (INTERNAL_SERVER_ERROR, Some("Failed to fetch monitor".to_string())));
    assert_eq!(text_of(toggleMonitor(Fetched::Found)), (OK, Some("Monitor pause status updated".to_string())));
    assert_eq!(text_of(toggleMonitor(Fetched::Missing)), (NOT_FOUND, Some("Monitor not found".to_string())));
    assert_eq!(text_of(toggleMonitor(Fetched::Failed)), (INTERNAL_SERVER_ERROR, Some("Failed to update monitor".to_string())));
    assert_eq!(text_of(deleteMonitor(Fetched::Found)), (OK, Some("Monitor deleted successfully".to_string())));
    assert_eq!(text_of(deleteMonitor(Fetched::Missing)), (NOT_FOUND, Some("Monitor not found".to_string())));
    assert_eq!(text_of(deleteMonitor(Fetched::Failed)), (INTERNAL_SERVER_ERROR, Some("Failed to delete monitor".to_string())));
}

#[test]
fn whole_seconds_round_toward_zero() {
    assert_eq!(seconds_between(ts(10, 900_000_000), ts(0, 950_000_000)), 9);
    assert_eq!(seconds_between(ts(0, 950_000_000), ts(10, 900_000_000)), -9);
    assert_eq!(seconds_between(ts(5, 0), ts(5, 0)), 0);
    assert_eq!(seconds_between(ts(5, 1), ts(4, 999_999_999)), 0);
    assert_eq!(seconds_between(ts(i64::MAX, 0), ts(i64::MIN, 0)), u64::MAX as i128);
}

fn chrono_instant(y: i32, mo: u32, d: u32, h: u32, mi: u32, s: u32, nanos: u32) -> chrono::DateTime<chrono::Utc> {
    chrono::NaiveDate::from_ymd_opt(y, mo, d)
        .unwrap()
        .and_time(chrono::NaiveTime::from_hms_nano_opt(h, mi, s, nanos).unwrap())
        .and_utc()
}

fn as_timestamp(t: chrono::DateTime<chrono::Utc>) -> Timestamp {
    ts(t.timestamp(), t.timestamp_subsec_nanos())
}

#[test]
fn whole_seconds_agree_with_chrono_across_leap_seconds() {
    let leap = chrono_instant(2016, 12, 31, 23, 59, 59, 1_500_000_000);
    let instants = [
        chrono_instant(2016, 12, 31, 23, 59, 0, 0),
        chrono_instant(2016, 12, 31, 23, 59, 59, 250_000_000),
        leap,
        chrono_instant(2016, 12, 31, 23, 59, 59, 1_000_000_000),
        chrono_instant(2017, 1, 1, 0, 0, 0, 500_000_000),
        chrono_instant(2017, 1, 1, 0, 1, 0, 0),
        chrono_instant(2016, 12, 31, 12, 0, 0, 999_999_999),
        chrono_instant(1969, 12, 31, 23, 59, 59, 1_200_000_000),
        chrono_instant(1969, 12, 31, 0, 0, 3, 0),
    ];
    for a in instants.iter() {
        for b in instants.iter() {
            assert_eq!(
                seconds_between(as_timestamp(*a), as_timestamp(*b)),
                (*a - *b).num_seconds() as i128,
                "{} - {}",
                a,
                b
            );
        }
    }
    // an instant inside the leap second lies a full 60.5 s after the start of its minute
    assert_eq!(seconds_between(as_timestamp(leap), as_timestamp(chrono_instant(2016, 12, 31, 23, 59, 0, 0))), 60);
    assert_eq!(seconds_between(as_timestamp(chrono_instant(2016, 12, 31, 23, 59, 0, 0)), as_timestamp(leap)), -60);
    assert_eq!(seconds_between(as_timestamp(chrono_instant(2017, 1, 1, 0, 0, 1, 600_000_000)), as_timestamp(leap)), 1);
    assert_eq!(seconds_between(as_timestamp(chrono_instant(2017, 1, 1, 0, 0, 0, 500_000_000)), as_timestamp(leap)), 0);
}

#[test]
fn monitor_row_stores_owner_url_and_period_in_seconds() {
    let request = CreateMonitorRequest { url: "https://example.com".to_string(), period: CheckPeriod::ThreeMin };
    assert_eq!(monitor_row(ALICE, &request), (ALICE, "https://example.com".to_string(), 180));
    let request = CreateMonitorRequest { url: "http://a.test/x".to_string(), period: CheckPeriod::OneMin };
    assert_eq!(monitor_row(7, &request), (7, "http://a.test/x".to_string(), 60));
}

#[test]
fn producer_queues_due_unpaused_monitors_in_order() {
    let now = ts(1_000, 500);
    let monitors = vec![
        monitor(1, 60, None, false),
        monitor(2, 60, Some(ts(940, 500)), false),
        monitor(3, 60, Some(ts(940, 501)), false),
        monitor(4, 60, None, true),
        monitor(5, 180, Some(ts(100, 0)), false),
    ];
    assert!(is_due(&monitors[0], now));
    assert!(is_due(&monitors[1], now));
    assert!(!is_due(&monitors[2], now));
    assert!(!is_due(&monitors[3], now));
    assert_eq!(due_monitors(&monitors, now), vec![1, 2, 5]);
}

#[test]
fn a_just_checked_monitor_is_not_due() {
    let now = ts(2_000, 0);
    assert!(!is_due(&monitor(1, 60, Some(now), false), now));
    assert!(is_due(&monitor(1, 0, Some(now), false), now));
}

#[test]
fn probe_classification() {
    let up = classify_probe(ProbeOutcome::Response { status: 200, status_text: "200 OK".to_string() });
    assert_eq!(up, (WebsiteStatus::Up, None));
    let edge = classify_probe(ProbeOutcome::Response { status: 299, status_text: "299 <unknown status code>".to_string() });
    assert_eq!(edge.0, WebsiteStatus::Up);
    let down = classify_probe(ProbeOutcome::Response { status: 404, status_text: "404 Not Found".to_string() });
    assert_eq!(down, (WebsiteStatus::Down, Some("HTTP 404 Not Found".to_string())));
    let redirect = classify_probe(ProbeOutcome::Response { status: 301, status_text: "301 Moved Permanently".to_string() });
    assert_eq!(redirect.0, WebsiteStatus::Down);
    let failed = classify_probe(ProbeOutcome::Failed { error: "timed out".to_string() });
    assert_eq!(failed, (WebsiteStatus::Down, Some("timed out".to_string())));
}

#[test]
fn status_changes_raise_alerts() {
    assert_eq!(status_name(WebsiteStatus::Unknown), "Unknown");
    assert_eq!(detect_status_change(None, WebsiteStatus::Down), (true, "Initial Check (Down)".to_string()));
    assert_eq!(detect_status_change(None, WebsiteStatus::Up), (false, "None".to_string()));
    assert_eq!(detect_status_change(Some(WebsiteStatus::Up), WebsiteStatus::Down), (true, "Up".to_string()));
    assert_eq!(detect_status_change(Some(WebsiteStatus::Down), WebsiteStatus::Up), (true, "Down".to_string()));
    assert_eq!(detect_status_change(Some(WebsiteStatus::Up), WebsiteStatus::Up), (false, "None".to_string()));
}

#[test]
fn alert_mail_for_recovery_and_outage() {
    let time = "Thu, 01 Jan 2024 00:00:00 +0000";
    let up = compose_alert_email("https://a.example", "Up", time);
    assert_eq!(up.subject, "🟢 Recovery: https://a.example is UP");
    assert!(up.html_content.contains("<h2 style=\"color: #10b981;\">Website Status Change</h2>"));
    assert!(up.html_content.contains("<strong>Time:</strong> Thu, 01 Jan 2024 00:00:00 +0000\n"));
    let down = compose_alert_email("https://a.example", "Down", time);
    assert_eq!(down.subject, "🚨 Alert: https://a.example is DOWN");
    assert!(down.html_content.contains("color: #ef4444;"));
    assert!(down.html_content.contains("has changed status to <strong>Down</strong>.</p>"));
    let expected = format!(
        r#"
        <div style="font-family: sans-serif; padding: 20px; border: 1px solid #e2e8f0; border-radius: 8px; max-width: 600px;">
            <h2 style="color: {color};">Website Status Change</h2>
            <p>Your monitor for <strong>{url}</strong> has changed status to <strong>{status}</strong>.</p>
            <div style="background: #f1f5f9; padding: 15px; border-radius: 4px; margin: 20px 0;">
                <strong>Status:</strong> {status}<br/>
                <strong>Time:</strong> {time}
            </div>
            <p>Check your dashboard for more details.</p>
            <a href="http://localhost:3000/dashboard" style="display: inline-block; background: #000; color: #fff; padding: 10px 20px; text-decoration: none; border-radius: 6px;">View Dashboard</a>
        </div>
        "#,
        color = "#ef4444",
        url = "https://a.example",
        status = "Down",
        time = time
    );
    assert_eq!(down.html_content, expected);
}

#[test]
fn queued_monitor_ids_read_back() {
    assert_eq!(monitor_id_text(ALICE), "12345678-9abc-def0-1234-56789abcdef0");
    assert_eq!(parse_monitor_id(&monitor_id_text(ALICE)), Some(ALICE));
    assert_eq!(parse_monitor_id(&monitor_id_text(0)), Some(0));
    assert_eq!(parse_monitor_id("12345678-9ABC-DEF0-1234-56789ABCDEF0"), Some(ALICE));
    assert_eq!(parse_monitor_id("not a uuid"), None);
    assert_eq!(parse_monitor_id(""), None);
}
