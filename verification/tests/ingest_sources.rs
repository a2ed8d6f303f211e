use case_rss::ingest::{Answer, Ingest, Precedents, SourceConfig, Step};
use case_rss::law_api::request::Reply;
use case_rss::law_api::CourtType;
use case_rss::rss::{render, RssChannelConfig};
use case_rss::transport::{FeedError, FetchRequest};

fn reply(content_type: Option<&str>, body: &str) -> Answer {
    Answer::Replied(Reply { content_type: content_type.map(String::from), body: String::from(body) })
}

fn fetch(step: Step) -> FetchRequest {
    match step {
        Step::Fetch(request) => request,
        other => panic!("no request: {:?}", other),
    }
}

fn finish(step: Step) -> Precedents {
    match step {
        Step::Finish(list) => list,
        other => panic!("no precedents: {:?}", other),
    }
}

#[test]
fn ingestion_from_the_json_provider() {
    let (state, step) = Ingest::begin(SourceConfig::Scourt { list_size: 2 });
    assert!(fetch(step).url.contains("param_lib_display=2&"));
    let list = "{\"resultListData\":[\
        {\"SEQ_NO\":2,\"TITLE\":\"b\",\"CASE_NUM\":\"c2\",\"LAW_DESC\":\"대법원\",\"DECI_DATE\":\"2024.02.02\",\"TEXT_FILE_LIST\":\"24b.xml\"},\
        {\"SEQ_NO\":1,\"TITLE\":\"a\",\"CASE_NUM\":\"c1\",\"LAW_DESC\":\"대법원\",\"DECI_DATE\":\"2024.01.01\"}]}";
    let (state, step) = state.step(reply(None, list));
    assert_eq!(fetch(step).body.as_deref(), Some("filePath=case_xml%2f2024%2f24b.xml"));
    let (_, step) = state.step(reply(Some("application/json"), "{\"contents\":{\"decisionType\":\"판결\"}}"));
    let precedents = finish(step);
    assert!(matches!(&precedents, Precedents::Scourt(list) if list.len() == 2));
    let items = precedents.feed_items();
    assert_eq!(items.len(), 2);
    assert_eq!(items[0].guid, "2");
    assert_eq!(items[0].title, "b (대법원 2024.02.02 선고 c2 판결)");
    assert_eq!(items[1].guid, "1");
    assert_eq!(items[1].title, "a (대법원 2024.01.01 자 c1 )");
    let feed = render(
        &RssChannelConfig { title: "T", link: "L", description: "D", language: None },
        &items,
    );
    assert!(feed.find("<guid>2</guid>").unwrap() < feed.find("<guid>1</guid>").unwrap());
}

#[test]
fn ingestion_from_the_xml_provider() {
    let config = SourceConfig::Law {
        auth: String::from("key"),
        court_type: CourtType::Court(String::from("서울고등법원")),
        count: 1,
    };
    let (state, step) = Ingest::begin(config);
    assert_eq!(
        fetch(step).url,
        "https://www.law.go.kr/DRF/lawSearch.do?OC=key&target=prec&org=400202&curt=서울고등법원&display=1&sort=ddes"
    );
    let (state, step) = state.step(reply(
        Some("text/xml"),
        "<PrecSearch><prec><판례일련번호>5</판례일련번호><사건명>n</사건명></prec></PrecSearch>",
    ));
    assert!(fetch(step).url.ends_with("&ID=5&type=XML"));
    let (_, step) = state.step(reply(
        Some("text/xml"),
        "<PrecService><판시사항><![CDATA[why]]></판시사항></PrecService>",
    ));
    let precedents = finish(step);
    assert!(matches!(&precedents, Precedents::Law(list) if list.len() == 1));
    let items = precedents.feed_items();
    assert_eq!(items[0].guid, "5");
    assert_eq!(items[0].description, "why");
}

#[test]
fn ingestion_fails_as_its_source_does() {
    let (state, _) = Ingest::begin(SourceConfig::Scourt { list_size: 2 });
    let (state, step) = state.step(Answer::Failed);
    assert!(matches!(step, Step::Abort(FeedError::Transport)));
    let (_, step) = state.step(reply(None, "{}"));
    assert!(matches!(step, Step::Abort(FeedError::Transport)));
    let (state, _) = Ingest::begin(SourceConfig::Scourt { list_size: 2 });
    let (_, step) = state.step(reply(None, "{}"));
    assert!(matches!(step, Step::Abort(FeedError::Decode)));
    let config = SourceConfig::Law {
        auth: String::from("key"),
        court_type: CourtType::SupremeCourt,
        count: 1,
    };
    let (state, _) = Ingest::begin(config);
    let (_, step) = state.step(reply(Some("text/html"), "<PrecSearch/>"));
    assert!(matches!(step, Step::Abort(FeedError::UnexpectedContentType)));
}
