use case_rss::law_api::request::xml_parse::{
    find_grounds, parse_court_description, parse_court_precedent_list, scan_events, step,
    ListScan, XmlError, XmlEvent,
};
use case_rss::law_api::{CourtPrecedent, CourtType, DecisionType};

fn start(name: &str) -> XmlEvent {
    XmlEvent::Start(String::from(name))
}

fn end(name: &str) -> XmlEvent {
    XmlEvent::End(String::from(name))
}

fn text(content: &str) -> XmlEvent {
    XmlEvent::Text(String::from(content))
}

fn cdata(content: &str) -> XmlEvent {
    XmlEvent::CData(String::from(content))
}

fn names(list: &[CourtPrecedent]) -> Vec<Option<String>> {
    list.iter().map(|p| p.case_name.clone()).collect()
}

#[test]
fn list_of_two_records_keeps_order_and_courts() {
    let xml = String::from(
        "<PrecSearch><prec id=\"1\"><판례일련번호>1001</판례일련번호><사건명><![CDATA[A vs B]]></사건명>\
         <법원명>대법원</법원명><선고일자>2024.01.10</선고일자></prec>\
         <prec id=\"2\"><판례일련번호>1002</판례일련번호><사건명><![CDATA[C vs D]]></사건명>\
         <법원명>서울고등법원</법원명><선고일자>2024.02.20</선고일자></prec></PrecSearch>",
    );
    let list = parse_court_precedent_list(&xml).unwrap();
    assert_eq!(list.len(), 2);
    assert_eq!(list[0].id, 1001);
    assert_eq!(list[1].id, 1002);
    assert_eq!(list[0].case_name.as_deref(), Some("A vs B"));
    assert_eq!(list[1].case_name.as_deref(), Some("C vs D"));
    assert!(matches!(list[0].court, Some(CourtType::SupremeCourt)));
    assert!(matches!(&list[1].court, Some(CourtType::Court(name)) if name == "서울고등법원"));
    assert_eq!(list[0].decision_date.as_deref(), Some("2024.01.10"));
    assert_eq!(list[1].decision_date.as_deref(), Some("2024.02.20"));
}

#[test]
fn list_reads_all_seven_fields() {
    let xml = String::from(
        "<?xml version=\"1.0\" encoding=\"UTF-8\"?>\n<PrecSearch>\n  <prec id=\"1\">\n    \
         <판례일련번호>228541</판례일련번호>\n    <사건명><![CDATA[손해배상(기)]]></사건명>\n    \
         <사건번호>2021다12345</사건번호>\n    <선고일자>2023.05.18</선고일자>\n    \
         <법원명>대법원</법원명>\n    <사건종류명>민사</사건종류명>\n    <판결유형>판결</판결유형>\n  \
         </prec>\n</PrecSearch>\n",
    );
    let list = parse_court_precedent_list(&xml).unwrap();
    assert_eq!(list.len(), 1);
    let p = &list[0];
    assert_eq!(p.id, 228541);
    assert_eq!(p.case_name.as_deref(), Some("손해배상(기)"));
    assert_eq!(p.case_code.as_deref(), Some("2021다12345"));
    assert_eq!(p.decision_date.as_deref(), Some("2023.05.18"));
    assert!(matches!(p.court, Some(CourtType::SupremeCourt)));
    assert_eq!(p.case_type.as_deref(), Some("민사"));
    assert!(matches!(p.decision_type, Some(DecisionType::Judgement)));
    assert_eq!(p.description, None);
}

#[test]
fn escaped_text_is_unescaped_and_trimmed() {
    let xml = String::from("<prec><사건명>  A &amp; B &lt;C&gt;  </사건명></prec>");
    let list = parse_court_precedent_list(&xml).unwrap();
    assert_eq!(list[0].case_name.as_deref(), Some("A & B <C>"));
}

#[test]
fn cdata_is_taken_verbatim() {
    let xml = String::from("<prec><사건명><![CDATA[A &amp; <B>]]></사건명></prec>");
    let list = parse_court_precedent_list(&xml).unwrap();
    assert_eq!(list[0].case_name.as_deref(), Some("A &amp; <B>"));
}

#[test]
fn unknown_tags_between_known_ones_change_nothing() {
    let plain = String::from(
        "<prec><판례일련번호>7</판례일련번호><사건명>first</사건명></prec>\
         <prec><판례일련번호>8</판례일련번호><사건명>second</사건명></prec>",
    );
    let noisy = String::from(
        "<root><meta/><prec><x><판례일련번호>7</판례일련번호></x><y></y><사건명>first</사건명><!-- c --></prec>\
         <z></z><prec><판례일련번호>8</판례일련번호><w/><사건명>second</사건명></prec></root>",
    );
    let a = parse_court_precedent_list(&plain).unwrap();
    let b = parse_court_precedent_list(&noisy).unwrap();
    assert_eq!(a.len(), 2);
    assert_eq!(b.len(), 2);
    assert_eq!(names(&a), names(&b));
    assert_eq!(b[0].id, 7);
    assert_eq!(b[1].id, 8);
    assert_eq!(b[0].case_name.as_deref(), Some("first"));
    assert_eq!(b[1].case_name.as_deref(), Some("second"));
}

#[test]
fn synthetic_events_with_unknown_tags() {
    let events = vec![
        start("list"),
        start("prec"),
        start("unknown"),
        text("11"),
        end("unknown"),
        end("판례일련번호"),
        XmlEvent::Other,
        text("name"),
        end("사건명"),
        end("prec"),
        end("list"),
        XmlEvent::Eof,
    ];
    let list = scan_events(&events).unwrap();
    assert_eq!(list.len(), 1);
    assert_eq!(list[0].id, 11);
    assert_eq!(list[0].case_name.as_deref(), Some("name"));
}

#[test]
fn last_text_fragment_wins() {
    let events = vec![
        start("prec"),
        text("first"),
        cdata("second"),
        text("third"),
        end("사건명"),
        end("prec"),
        XmlEvent::Eof,
    ];
    let list = scan_events(&events).unwrap();
    assert_eq!(list[0].case_name.as_deref(), Some("third"));
}

#[test]
fn last_text_fragment_wins_in_a_document() {
    let xml = String::from("<prec><사건명>one<![CDATA[two]]></사건명></prec>");
    let list = parse_court_precedent_list(&xml).unwrap();
    assert_eq!(list[0].case_name.as_deref(), Some("two"));
}

#[test]
fn text_stays_until_the_record_ends() {
    let events = vec![
        start("prec"),
        text("same"),
        end("사건명"),
        end("사건번호"),
        end("prec"),
        start("prec"),
        end("prec"),
        XmlEvent::Eof,
    ];
    let list = scan_events(&events).unwrap();
    assert_eq!(list.len(), 2);
    assert_eq!(list[0].case_name.as_deref(), Some("same"));
    assert_eq!(list[0].case_code.as_deref(), Some("same"));
    assert_eq!(list[1].case_name, None);
}

#[test]
fn start_of_a_record_forgets_the_text() {
    let events = vec![text("stale"), start("prec"), end("사건명"), XmlEvent::Eof];
    assert!(matches!(scan_events(&events), Err(XmlError::NoText)));
}

#[test]
fn end_of_a_record_forgets_the_text() {
    let events = vec![start("prec"), text("stale"), end("prec"), end("사건명"), XmlEvent::Eof];
    assert!(matches!(scan_events(&events), Err(XmlError::NoText)));
}

#[test]
fn field_before_any_record_is_an_error() {
    let events = vec![text("1"), end("판례일련번호"), XmlEvent::Eof];
    assert!(matches!(scan_events(&events), Err(XmlError::NoRecord)));
}

#[test]
fn serial_number_must_be_a_numeral() {
    for bad in ["", "abc", "12a", "-3", "4294967296", " 7", "+"] {
        let events = vec![start("prec"), text(bad), end("판례일련번호"), XmlEvent::Eof];
        assert!(matches!(scan_events(&events), Err(XmlError::BadSerial)), "{:?}", bad);
    }
    for (good, value) in [("0", 0u32), ("007", 7), ("+15", 15), ("4294967295", u32::MAX)] {
        let events = vec![start("prec"), text(good), end("판례일련번호"), XmlEvent::Eof];
        assert_eq!(scan_events(&events).unwrap()[0].id, value);
    }
}

#[test]
fn events_that_stop_short_are_malformed() {
    let events = vec![start("prec")];
    assert!(matches!(scan_events(&events), Err(XmlError::Malformed)));
    assert!(matches!(scan_events(&Vec::new()), Err(XmlError::Malformed)));
}

#[test]
fn events_after_the_end_are_not_read() {
    let events = vec![start("prec"), XmlEvent::Eof, end("사건명")];
    assert_eq!(scan_events(&events).unwrap().len(), 1);
}

#[test]
fn malformed_document_is_an_error() {
    let xml = String::from("<prec><사건명>A</사건번호></prec>");
    assert!(matches!(parse_court_precedent_list(&xml), Err(XmlError::Malformed)));
    let bad_entity = String::from("<prec><사건명>A &nosuch; B</사건명></prec>");
    assert!(matches!(parse_court_precedent_list(&bad_entity), Err(XmlError::Malformed)));
}

#[test]
fn empty_document_has_no_records() {
    assert_eq!(parse_court_precedent_list(&String::new()).unwrap().len(), 0);
    assert_eq!(parse_court_precedent_list(&String::from("<PrecSearch/>")).unwrap().len(), 0);
}

#[test]
fn step_is_a_function_of_state_and_event() {
    let state = step(ListScan::new(), &start("prec")).unwrap();
    assert_eq!(state.records.len(), 1);
    assert_eq!(state.records[0].id, 0);
    assert_eq!(state.pending, None);
    let state = step(state, &text("서울고등법원")).unwrap();
    assert_eq!(state.pending.as_deref(), Some("서울고등법원"));
    let state = step(state, &end("법원명")).unwrap();
    assert!(matches!(&state.records[0].court, Some(CourtType::Court(n)) if n == "서울고등법원"));
    let state = step(state, &text("알 수 없음")).unwrap();
    let state = step(state, &end("판결유형")).unwrap();
    assert!(matches!(state.records[0].decision_type, Some(DecisionType::Unknown)));
    assert_eq!(state.pending.as_deref(), Some("알 수 없음"));
    let state = step(state, &end("prec")).unwrap();
    assert_eq!(state.pending, None);
    assert_eq!(state.records.len(), 1);
}

#[test]
fn grounds_are_the_last_cdata_before_their_end_tag() {
    let xml = String::from(
        "<PrecService><사건명><![CDATA[name]]></사건명><판시사항><![CDATA[[1] first <br/> & second]]></판시사항>\
         <판결요지><![CDATA[later]]></판결요지></PrecService>",
    );
    assert_eq!(parse_court_description(&xml).unwrap(), "[1] first <br/> & second");
}

#[test]
fn grounds_ignore_escaped_text() {
    let events = vec![cdata("kept"), text("not this"), end("판시사항"), XmlEvent::Eof];
    assert_eq!(find_grounds(&events).unwrap(), "kept");
    let xml = String::from("<a><b><![CDATA[kept]]></b><판시사항>plain</판시사항></a>");
    assert_eq!(parse_court_description(&xml).unwrap(), "kept");
}

#[test]
fn grounds_without_cdata_are_an_error() {
    let events = vec![start("판시사항"), text("plain"), end("판시사항"), XmlEvent::Eof];
    assert!(matches!(find_grounds(&events), Err(XmlError::NoText)));
}

#[test]
fn document_without_grounds_is_an_error() {
    let xml = String::from("<PrecService><사건명><![CDATA[name]]></사건명></PrecService>");
    assert!(matches!(parse_court_description(&xml), Err(XmlError::NoGrounds)));
    assert!(matches!(find_grounds(&vec![cdata("x"), XmlEvent::Eof]), Err(XmlError::NoGrounds)));
    assert!(matches!(find_grounds(&vec![cdata("x")]), Err(XmlError::Malformed)));
    let broken = String::from("<a><b></c><판시사항><![CDATA[x]]></판시사항></a>");
    assert!(matches!(parse_court_description(&broken), Err(XmlError::Malformed)));
}
