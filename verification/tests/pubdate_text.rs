use case_rss::court_api;
use case_rss::law_api;
use case_rss::pubdate::{publication_time, read_date, CalendarDate};
use case_rss::text::{decimal_text, text_eq};

fn day(year: i32, month: u32, day: u32) -> Option<CalendarDate> {
    Some(CalendarDate { year, month, day })
}

fn publication_time_of(text: &str, format: &str) -> Option<String> {
    publication_time(read_date(text, format))
}

#[test]
fn dates_are_read_as_days_of_the_calendar() {
    assert_eq!(read_date("2024.01.10", "%Y.%m.%d"), day(2024, 1, 10));
    assert_eq!(read_date("2024.03.01.", "%Y.%m.%d."), day(2024, 3, 1));
    assert_eq!(read_date("2024.3.1", "%Y.%m.%d"), day(2024, 3, 1));
    assert_eq!(read_date("2024.02.30", "%Y.%m.%d"), None);
    assert_eq!(read_date("2024.01.10.", "%Y.%m.%d"), None);
    assert_eq!(read_date("", "%Y.%m.%d"), None);
}

#[test]
fn publication_time_is_two_in_the_afternoon_in_seoul() {
    assert_eq!(
        publication_time(day(2024, 1, 10)).as_deref(),
        Some("Wed, 10 Jan 2024 14:00:00 +0900")
    );
    assert_eq!(
        publication_time(day(2023, 5, 18)).as_deref(),
        Some("Thu, 18 May 2023 14:00:00 +0900")
    );
    assert_eq!(
        publication_time(day(1988, 7, 1)).as_deref(),
        Some("Fri, 1 Jul 1988 14:00:00 +1000")
    );
}

#[test]
fn publication_time_needs_a_day_of_the_calendar() {
    assert_eq!(publication_time(None), None);
    assert_eq!(publication_time(day(2023, 2, 29)), None);
    assert_eq!(publication_time(day(2023, 13, 1)), None);
    assert_eq!(publication_time(day(2023, 0, 1)), None);
    assert_eq!(publication_time(day(10000, 1, 1)), None);
    assert_eq!(publication_time(day(-1, 1, 1)), None);
    assert!(publication_time(day(2024, 2, 29)).is_some());
    assert!(publication_time(day(9999, 12, 31)).is_some());
}

#[test]
fn publication_time_from_text() {
    assert_eq!(
        publication_time_of("2024.01.10", "%Y.%m.%d").as_deref(),
        Some("Wed, 10 Jan 2024 14:00:00 +0900")
    );
    assert_eq!(
        publication_time_of("2024.03.01.", "%Y.%m.%d.").as_deref(),
        Some("Fri, 1 Mar 2024 14:00:00 +0900")
    );
    assert_eq!(publication_time_of("2024.03.01", "%Y.%m.%d."), None);
    assert_eq!(publication_time_of("2024-03-01", "%Y.%m.%d"), None);
    assert_eq!(publication_time_of("", "%Y.%m.%d"), None);
    assert_eq!(publication_time_of("2024.02.30", "%Y.%m.%d"), None);
}

#[test]
fn precedents_tell_their_publication_time() {
    let mut p = law_api::CourtPrecedent::new();
    assert_eq!(p.get_pubdate(), None);
    assert_eq!(p.decision_day(), None);
    p.decision_date = Some(String::from("2023.05.18"));
    assert_eq!(p.decision_day(), day(2023, 5, 18));
    assert_eq!(p.get_pubdate().as_deref(), Some("Thu, 18 May 2023 14:00:00 +0900"));
    p.decision_date = Some(String::from("2023.05.18."));
    assert_eq!(p.get_pubdate(), None);
    let q = court_api::CourtPrecedent::new(
        court_api::CourtPrecedentOverview {
            id: 1,
            title: String::new(),
            case_id: String::new(),
            court_type: court_api::CourtType::SupremeCourt,
            case_type: court_api::CaseType::Unknown,
            decision_date: String::from("2024.01.10"),
            detail_file: None,
        },
        court_api::CourtPrecedentDetail {
            pub_date: String::from("2024.03.01."),
            ..court_api::CourtPrecedentDetail::default()
        },
    );
    assert_eq!(q.get_pubdate().as_deref(), Some("Fri, 1 Mar 2024 14:00:00 +0900"));
    assert_eq!(q.publication_day(), day(2024, 3, 1));
    assert_eq!(q.decision_day(), day(2024, 1, 10));
}

#[test]
fn numbers_are_written_in_decimal() {
    assert_eq!(decimal_text(0), "0");
    assert_eq!(decimal_text(7), "7");
    assert_eq!(decimal_text(10), "10");
    assert_eq!(decimal_text(1001), "1001");
    assert_eq!(decimal_text(4294967295), "4294967295");
    for n in [9u32, 99, 100, 12345, 1_000_000] {
        assert_eq!(decimal_text(n), n.to_string());
    }
}

#[test]
fn texts_are_compared_by_content() {
    assert!(text_eq("대법원", "대법원"));
    assert!(text_eq("", ""));
    assert!(!text_eq("대법원", "대법"));
    assert!(!text_eq("a", "A"));
}
