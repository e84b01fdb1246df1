use backend_lab::counter::Counter;
use backend_lab::course::{Course, Seminar, Workshop};
use backend_lab::markdown::{markdown_page, render_html_content};
use backend_lab::numfmt::{i64_text, u64_text};
use backend_lab::ping::{ping_reply, trim};
use backend_lab::stream_jobs::consumer_name;

#[test]
fn counter_yields_one_to_five_then_stops() {
    let mut c = Counter::new();
    let mut seen = Vec::new();
    while let Some(x) = c.next() {
        seen.push(x);
    }
    assert_eq!(seen, vec![1, 2, 3, 4, 5]);
    assert_eq!(c.next(), None);
    assert_eq!(c.next(), None);
    assert_eq!(c.count, 5);
}

#[test]
fn counter_resumes_from_its_count() {
    let mut c = Counter { count: 3 };
    assert_eq!(c.next(), Some(4));
    assert_eq!(c.next(), Some(5));
    assert_eq!(c.next(), None);
}

#[test]
fn decimal_text_of_integers() {
    assert_eq!(u64_text(0), "0");
    assert_eq!(u64_text(7), "7");
    assert_eq!(u64_text(10), "10");
    assert_eq!(u64_text(u64::MAX), u64::MAX.to_string());
    assert_eq!(i64_text(-42), "-42");
    assert_eq!(i64_text(i64::MIN), i64::MIN.to_string());
    assert_eq!(i64_text(1234567), "1234567");
}

#[test]
fn workshop_and_seminar_overviews() {
    let workshop = Workshop {
        title: String::from("Rust Programming"),
        instructor: String::from("John Doe"),
        duration: 10,
    };
    let seminar = Seminar {
        title: String::from("Rust Programming"),
        speaker: String::from("Jane Doe"),
        location: String::from("New York"),
    };
    assert_eq!(workshop.get_overview(), "Workshop Rust Programming by John Doe for 10 hours ");
    assert_eq!(seminar.get_overview(), "Seminar Rust Programming by Jane Doe at New York ");
}

#[test]
fn page_wraps_content() {
    assert_eq!(
        render_html_content("<p>hi</p>"),
        "<!DOCTYPE html><html><head><meta charset=\"utf-8\"><title>html file created using rust cli</title></head><body><p>hi</p></body></html>"
    );
}

#[test]
fn markdown_becomes_a_page_with_strikethrough() {
    let page = markdown_page("# Title\n\nsome ~~old~~ text\n");
    assert_eq!(
        page,
        "<!DOCTYPE html><html><head><meta charset=\"utf-8\"><title>html file created using rust cli</title></head><body><h1>Title</h1>\n<p>some <del>old</del> text</p>\n</body></html>"
    );
}

#[test]
fn trim_matches_std() {
    for s in ["  ping \n", "\u{3000}x\u{2029}", "", "   ", "a b", "\u{85}\u{a0}y"] {
        assert_eq!(trim(s), s.trim());
    }
}

#[test]
fn ping_is_answered_with_pong() {
    assert_eq!(ping_reply("ping"), Some(String::from("Pong")));
    assert_eq!(ping_reply("  PiNg\r\n"), Some(String::from("Pong")));
    assert_eq!(ping_reply("pong"), None);
    assert_eq!(ping_reply("p ing"), None);
    assert_eq!(ping_reply(""), None);
}

#[test]
fn worker_consumer_names() {
    assert_eq!(consumer_name(3), "worker_3");
    assert_eq!(consumer_name(20), "worker_20");
}

#[test]
fn ping_ignores_ascii_case_and_surrounding_space_only() {
    for text in [" PING", "Ping", "pInG\t", "\n\nPING  "] {
        assert_eq!(ping_reply(text), Some(String::from("Pong")), "{:?}", text);
    }
    for text in [" PONG", "PIN G", "pingg", "\u{ff30}\u{ff29}\u{ff2e}\u{ff27}"] {
        assert_eq!(ping_reply(text), None, "{:?}", text);
    }
}
