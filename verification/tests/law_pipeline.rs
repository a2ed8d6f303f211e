use case_rss::law_api::request::{
    description_request, is_xml, list_request, Action, Collecting, Event, Reply, Stage,
    PREC_DESCRIPTION_CACHE_TTL, PREC_LIST_CACHE_TTL,
};
use case_rss::law_api::{CourtPrecedent, CourtType};
use case_rss::transport::{FeedError, FetchRequest, Method};

const LIST: &str = "<PrecSearch><prec><판례일련번호>11</판례일련번호><사건명>first</사건명></prec>\
                    <prec><판례일련번호>22</판례일련번호><사건명>second</사건명></prec></PrecSearch>";

fn reply(content_type: Option<&str>, body: &str) -> Event {
    Event::Replied(Reply { content_type: content_type.map(String::from), body: String::from(body) })
}

fn grounds(text: &str) -> String {
    format!("<PrecService><판시사항><![CDATA[{}]]></판시사항></PrecService>", text)
}

fn fetch(action: Action) -> FetchRequest {
    match action {
        Action::Fetch(request) => request,
        other => panic!("no request: {:?}", other),
    }
}

fn finish(action: Action) -> Vec<CourtPrecedent> {
    match action {
        Action::Finish(list) => list,
        other => panic!("no list: {:?}", other),
    }
}

#[test]
fn law_list_request_is_exact() {
    assert_eq!(PREC_LIST_CACHE_TTL, 900);
    let request = list_request("key", &CourtType::SupremeCourt, 20);
    assert!(matches!(request.method, Method::Get));
    assert_eq!(
        request.url,
        "https://www.law.go.kr/DRF/lawSearch.do?OC=key&target=prec&org=400201&curt=대법원&display=20&sort=ddes"
    );
    assert!(request.headers.is_empty());
    assert_eq!(request.body, None);
    assert_eq!(request.cache_ttl, 900);
    let lower = list_request("k", &CourtType::Court(String::from("서울고등법원")), 255);
    assert_eq!(
        lower.url,
        "https://www.law.go.kr/DRF/lawSearch.do?OC=k&target=prec&org=400202&curt=서울고등법원&display=255&sort=ddes"
    );
}

#[test]
fn description_request_is_exact() {
    assert_eq!(PREC_DESCRIPTION_CACHE_TTL, 86400);
    let request = description_request("key", 228541);
    assert!(matches!(request.method, Method::Get));
    assert_eq!(
        request.url,
        "http://www.law.go.kr/DRF/lawService.do?OC=key&target=prec&ID=228541&type=XML"
    );
    assert!(request.headers.is_empty());
    assert_eq!(request.body, None);
    assert_eq!(request.cache_ttl, 86400);
}

#[test]
fn content_type_must_name_xml() {
    assert!(is_xml(&Some(String::from("text/xml"))));
    assert!(is_xml(&Some(String::from("application/rss+xml; charset=utf-8"))));
    assert!(is_xml(&Some(String::from("xml"))));
    assert!(!is_xml(&Some(String::from("text/html"))));
    assert!(!is_xml(&Some(String::from("text/XML"))));
    assert!(!is_xml(&Some(String::from("xm"))));
    assert!(!is_xml(&Some(String::new())));
    assert!(!is_xml(&None));
}

#[test]
fn collecting_runs_in_list_order() {
    let (state, action) = Collecting::begin(String::from("key"), &CourtType::SupremeCourt, 2);
    assert!(matches!(state.stage, Stage::Listing));
    assert_eq!(state.auth, "key");
    assert!(fetch(action).url.contains("lawSearch.do?OC=key&"));
    let (state, action) = state.step(reply(Some("text/xml"), LIST));
    assert_eq!(
        fetch(action).url,
        "http://www.law.go.kr/DRF/lawService.do?OC=key&target=prec&ID=11&type=XML"
    );
    let (state, action) = state.step(reply(Some("application/xml"), &grounds("one")));
    assert_eq!(
        fetch(action).url,
        "http://www.law.go.kr/DRF/lawService.do?OC=key&target=prec&ID=22&type=XML"
    );
    assert!(matches!(&state.stage, Stage::Describing { waiting, done } if waiting.len() == 1 && done.len() == 1));
    let (state, action) = state.step(reply(Some("text/xml"), &grounds("two")));
    assert!(matches!(state.stage, Stage::Closed));
    let list = finish(action);
    assert_eq!(list.len(), 2);
    assert_eq!(list[0].id, 11);
    assert_eq!(list[0].case_name.as_deref(), Some("first"));
    assert_eq!(list[0].description.as_deref(), Some("one"));
    assert_eq!(list[1].id, 22);
    assert_eq!(list[1].case_name.as_deref(), Some("second"));
    assert_eq!(list[1].description.as_deref(), Some("two"));
}

#[test]
fn list_without_records_is_whole_at_once() {
    let (state, _) = Collecting::begin(String::from("key"), &CourtType::SupremeCourt, 2);
    let (state, action) = state.step(reply(Some("text/xml"), "<PrecSearch></PrecSearch>"));
    assert!(matches!(state.stage, Stage::Closed));
    assert!(finish(action).is_empty());
}

#[test]
fn answer_that_is_not_xml_aborts() {
    let (state, _) = Collecting::begin(String::from("key"), &CourtType::SupremeCourt, 2);
    let (state, action) = state.step(reply(Some("text/html"), LIST));
    assert!(matches!(state.stage, Stage::Closed));
    assert!(matches!(action, Action::Abort(FeedError::UnexpectedContentType)));
    let (state, _) = Collecting::begin(String::from("key"), &CourtType::SupremeCourt, 2);
    let (_, action) = state.step(reply(None, LIST));
    assert!(matches!(action, Action::Abort(FeedError::UnexpectedContentType)));
    let (state, _) = Collecting::begin(String::from("key"), &CourtType::SupremeCourt, 2);
    let (state, _) = state.step(reply(Some("text/xml"), LIST));
    let (_, action) = state.step(reply(Some("application/json"), &grounds("one")));
    assert!(matches!(action, Action::Abort(FeedError::UnexpectedContentType)));
}

#[test]
fn documents_that_cannot_be_read_abort() {
    let (state, _) = Collecting::begin(String::from("key"), &CourtType::SupremeCourt, 2);
    let (_, action) = state.step(reply(Some("text/xml"), "<a></b>"));
    assert!(matches!(action, Action::Abort(FeedError::Decode)));
    let (state, _) = Collecting::begin(String::from("key"), &CourtType::SupremeCourt, 2);
    let (state, _) = state.step(reply(Some("text/xml"), LIST));
    let (state, action) = state.step(reply(Some("text/xml"), "<PrecService></PrecService>"));
    assert!(matches!(state.stage, Stage::Closed));
    assert!(matches!(action, Action::Abort(FeedError::Decode)));
}

#[test]
fn transport_failure_aborts_the_collecting() {
    let (state, _) = Collecting::begin(String::from("key"), &CourtType::SupremeCourt, 2);
    let (_, action) = state.step(Event::Failed);
    assert!(matches!(action, Action::Abort(FeedError::Transport)));
    let (state, _) = Collecting::begin(String::from("key"), &CourtType::SupremeCourt, 2);
    let (state, _) = state.step(reply(Some("text/xml"), LIST));
    let (state, action) = state.step(Event::Failed);
    assert!(matches!(state.stage, Stage::Closed));
    assert!(matches!(action, Action::Abort(FeedError::Transport)));
    let (_, action) = state.step(reply(Some("text/xml"), &grounds("late")));
    assert!(matches!(action, Action::Abort(FeedError::Transport)));
}

#[test]
fn grounds_without_a_waiting_record_abort() {
    let state = Collecting {
        auth: String::from("key"),
        stage: Stage::Describing { waiting: Vec::new(), done: Vec::new() },
    };
    let (_, action) = state.step(reply(Some("text/xml"), &grounds("x")));
    assert!(matches!(action, Action::Abort(FeedError::Transport)));
}
