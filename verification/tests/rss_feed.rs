use case_rss::court_api;
use case_rss::feed::{scourt_channel, scourt_feed, FEED_CONTENT_TYPE, SCOURT_LIST_SIZE};
use case_rss::law_api;
use case_rss::rss::{
    cdata_text, element_text, generate_rss, item_text, render, Rss, RssChannelConfig,
    RssItem,
};

fn record(id: u32, name: &str) -> law_api::CourtPrecedent {
    let mut p = law_api::CourtPrecedent::new();
    p.id = id;
    p.case_name = Some(String::from(name));
    p.case_code = Some(String::from("2021다1"));
    p.decision_date = Some(String::from("2023.05.18"));
    p.court = Some(law_api::CourtType::SupremeCourt);
    p.decision_type = Some(law_api::DecisionType::Judgement);
    p.case_type = Some(String::from("민사"));
    p.description = Some(String::from("grounds"));
    p
}

fn config(language: Option<&'static str>) -> RssChannelConfig<'static> {
    RssChannelConfig { title: "T", link: "http://l", description: "D", language }
}

fn count(text: &str, part: &str) -> usize {
    text.matches(part).count()
}

#[test]
fn feed_of_one_record_is_exact() {
    let feed = generate_rss(&config(Some("ko-kr")), &vec![record(7, "A")]);
    assert_eq!(
        feed,
        "<?xml version=\"1.0\" encoding=\"UTF-8\"?><rss version=\"2.0\"><channel>\
         <title>T</title><link>http://l</link><description>D</description><language>ko-kr</language>\
         <item><title><![CDATA[A (대법원 2023.05.18 선고 2021다1 판결)]]></title>\
         <link>https://casenote.kr/대법원/2021다1</link>\
         <description><![CDATA[grounds]]></description>\
         <guid>7</guid><author>대법원</author><category>민사</category></item>\
         </channel></rss>"
    );
}

#[test]
fn feed_without_records_has_no_items() {
    let feed = generate_rss(&config(None), &Vec::<law_api::CourtPrecedent>::new());
    assert_eq!(
        feed,
        "<?xml version=\"1.0\" encoding=\"UTF-8\"?><rss version=\"2.0\"><channel>\
         <title>T</title><link>http://l</link><description>D</description></channel></rss>"
    );
}

#[test]
fn language_is_left_out_when_none() {
    let feed = generate_rss(&config(None), &vec![record(1, "A")]);
    assert_eq!(count(&feed, "<language>"), 0);
    assert_eq!(count(&feed, "</language>"), 0);
    assert_eq!(count(&feed, "language"), 0);
}

#[test]
fn language_stands_once_after_the_description() {
    let feed = generate_rss(&config(Some("ko-kr")), &vec![record(1, "A")]);
    assert_eq!(count(&feed, "<language>"), 1);
    assert_eq!(count(&feed, "<language>ko-kr</language>"), 1);
    let description = feed.find("<description>D</description>").unwrap();
    let language = feed.find("<language>").unwrap();
    assert_eq!(language, description + "<description>D</description>".len());
    assert!(language < feed.find("<item>").unwrap());
}

#[test]
fn items_stand_in_the_order_of_the_records() {
    let records = vec![record(30, "third"), record(10, "first"), record(20, "second")];
    let feed = generate_rss(&config(None), &records);
    assert_eq!(count(&feed, "<item>"), 3);
    assert_eq!(count(&feed, "</item>"), 3);
    let a = feed.find("<guid>30</guid>").unwrap();
    let b = feed.find("<guid>10</guid>").unwrap();
    let c = feed.find("<guid>20</guid>").unwrap();
    assert!(a < b && b < c);
    let head = generate_rss(&config(None), &Vec::<law_api::CourtPrecedent>::new());
    let head = head.strip_suffix("</channel></rss>").unwrap();
    let mut expected = String::from(head);
    for r in &records {
        expected.push_str(&item_text(&r.feed_item()));
    }
    expected.push_str("</channel></rss>");
    assert_eq!(feed, expected);
}

#[test]
fn each_item_has_the_six_elements() {
    let item = item_text(&record(5, "A").feed_item());
    assert!(item.starts_with("<item><title><![CDATA["));
    assert!(item.ends_with("</category></item>"));
    for name in ["title", "link", "description", "guid", "author", "category"] {
        assert_eq!(count(&item, &format!("<{}>", name)), 1, "{}", name);
        assert_eq!(count(&item, &format!("</{}>", name)), 1, "{}", name);
    }
    assert_eq!(count(&item, "<"), 2 + 12 + 2);
    let order: Vec<usize> = ["<title>", "<link>", "<description>", "<guid>", "<author>", "<category>"]
        .iter()
        .map(|tag| item.find(tag).unwrap())
        .collect();
    assert!(order.windows(2).all(|w| w[0] < w[1]));
}

#[test]
fn line_feeds_are_dropped() {
    let mut r = record(1, "two\nlines");
    r.description = Some(String::from("a\nb\r\nc\n"));
    let feed = generate_rss(
        &RssChannelConfig { title: "T\n1", link: "L", description: "D", language: None },
        &vec![r],
    );
    assert_eq!(count(&feed, "\n"), 0);
    assert!(feed.contains("<title>T1</title>"));
    assert!(feed.contains("<![CDATA[twolines (대법원"));
    assert!(feed.contains("<description><![CDATA[ab\rc]]></description>"));
}

#[test]
fn upstream_text_is_not_escaped() {
    let mut r = record(1, "a < b & c");
    r.description = Some(String::from("<p>x</p>"));
    let feed = generate_rss(&config(None), &vec![r]);
    assert!(feed.contains("<title><![CDATA[a < b & c (대법원"));
    assert!(feed.contains("<description><![CDATA[<p>x</p>]]></description>"));
}

#[test]
fn elements_and_cdata() {
    assert_eq!(element_text("guid", "7"), "<guid>7</guid>");
    assert_eq!(element_text("a", ""), "<a></a>");
    assert_eq!(cdata_text("x"), "<![CDATA[x]]>");
    assert_eq!(cdata_text(""), "<![CDATA[]]>");
}

#[test]
fn gazette_feed() {
    assert_eq!(SCOURT_LIST_SIZE, 49);
    assert!(FEED_CONTENT_TYPE.starts_with("application/rss+xml"));
    let channel = scourt_channel();
    assert_eq!(channel.title, "대법원 판례공보");
    assert_eq!(channel.link, "https://library.scourt.go.kr/search/judg/press/case");
    assert_eq!(channel.description, "대법원 판례공보");
    assert_eq!(channel.language, Some("ko-kr"));
    let feed = scourt_feed(&Vec::<court_api::CourtPrecedent>::new());
    assert_eq!(
        feed,
        "<?xml version=\"1.0\" encoding=\"UTF-8\"?><rss version=\"2.0\"><channel>\
         <title>대법원 판례공보</title><link>https://library.scourt.go.kr/search/judg/press/case</link>\
         <description>대법원 판례공보</description><language>ko-kr</language></channel></rss>"
    );
}

#[test]
fn items_are_rendered_as_they_are() {
    let items = vec![
        RssItem {
            title: String::from("t"),
            link: String::from("l"),
            description: String::from("d"),
            guid: String::from("g"),
            author: String::from("a"),
            category: String::from("c"),
        },
        RssItem {
            title: String::new(),
            link: String::new(),
            description: String::new(),
            guid: String::new(),
            author: String::new(),
            category: String::new(),
        },
    ];
    assert_eq!(
        render(&config(None), &items),
        "<?xml version=\"1.0\" encoding=\"UTF-8\"?><rss version=\"2.0\"><channel>\
         <title>T</title><link>http://l</link><description>D</description>\
         <item><title><![CDATA[t]]></title><link>l</link><description><![CDATA[d]]></description>\
         <guid>g</guid><author>a</author><category>c</category></item>\
         <item><title><![CDATA[]]></title><link></link><description><![CDATA[]]></description>\
         <guid></guid><author></author><category></category></item></channel></rss>"
    );
    assert_eq!(generate_rss(&config(None), &items), render(&config(None), &items));
    assert_eq!(items[0].get_title(), "t");
    assert_eq!(items[0].get_link(), "l");
    assert_eq!(items[0].get_description(), "d");
    assert_eq!(items[0].get_guid(), "g");
    assert_eq!(items[0].get_author(), "a");
    assert_eq!(items[0].get_category(), "c");
}

#[test]
fn feed_items_follow_the_precedents() {
    let records = vec![record(3, "c"), record(1, "a")];
    let items = law_api::feed_items(&records);
    assert_eq!(items.len(), 2);
    assert_eq!(items[0].guid, "3");
    assert_eq!(items[1].guid, "1");
    assert_eq!(items[0].title, records[0].get_title());
    assert_eq!(items[1].link, records[1].get_link());
    assert_eq!(render(&config(None), &items), generate_rss(&config(None), &records));
    let one = records[1].feed_item();
    assert_eq!(one.title, "a (대법원 2023.05.18 선고 2021다1 판결)");
    assert_eq!(one.author, "대법원");
    assert_eq!(one.category, "민사");
    assert_eq!(one.description, "grounds");
    assert!(court_api::feed_items(&Vec::new()).is_empty());
}
