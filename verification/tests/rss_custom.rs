use case_rss::rss::{generate_rss, Rss, RssChannelConfig};

struct Note {
    id: u32,
    text: String,
}

impl Rss for Note {
    fn get_title(&self) -> String {
        format!("note {}", self.id)
    }

    fn get_link(&self) -> String {
        format!("http://notes/{}", self.id)
    }

    fn get_description(&self) -> String {
        self.text.clone()
    }

    fn get_guid(&self) -> String {
        self.id.to_string()
    }

    fn get_author(&self) -> String {
        String::from("me")
    }

    fn get_category(&self) -> String {
        String::from("notes")
    }
}

#[test]
fn any_record_with_the_six_texts_can_be_rendered() {
    let notes = vec![Note { id: 2, text: String::from("b") }, Note { id: 1, text: String::from("a") }];
    let config = RssChannelConfig { title: "N", link: "http://notes", description: "all", language: None };
    assert_eq!(
        generate_rss(&config, &notes),
        "<?xml version=\"1.0\" encoding=\"UTF-8\"?><rss version=\"2.0\"><channel>\
         <title>N</title><link>http://notes</link><description>all</description>\
         <item><title><![CDATA[note 2]]></title><link>http://notes/2</link>\
         <description><![CDATA[b]]></description><guid>2</guid><author>me</author>\
         <category>notes</category></item>\
         <item><title><![CDATA[note 1]]></title><link>http://notes/1</link>\
         <description><![CDATA[a]]></description><guid>1</guid><author>me</author>\
         <category>notes</category></item></channel></rss>"
    );
}
