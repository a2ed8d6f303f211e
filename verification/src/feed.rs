//! The feed of the Supreme Court's gazette of precedents.

use crate::court_api::{feed_items, item_models, precedents_view, CourtPrecedent};
use crate::rss::{render, rss_document, RssChannelConfig};
use vstd::prelude::*;

verus! {

/// The content type under which a feed is served.
pub const FEED_CONTENT_TYPE: &'static str = "application/rss+xml; charset=utf-8";

/// How many precedents the gazette feed asks for.
pub const SCOURT_LIST_SIZE: u8 = 49;

/// The channel of the gazette feed.
pub open spec fn scourt_channel_model() -> RssChannelConfig<'static> {
    RssChannelConfig {
        title: "대법원 판례공보",
        link: "https://library.scourt.go.kr/search/judg/press/case",
        description: "대법원 판례공보",
        language: Some("ko-kr"),
    }
}

/// The channel of the gazette feed.
pub fn scourt_channel() -> (config: RssChannelConfig<'static>)
    ensures
        config == scourt_channel_model(),
{
    RssChannelConfig {
        title: "대법원 판례공보",
        link: "https://library.scourt.go.kr/search/judg/press/case",
        description: "대법원 판례공보",
        language: Some("ko-kr"),
    }
}

/// Renders the gazette feed of `list`: one item for each precedent, in the
/// order of `list`.
pub fn scourt_feed(list: &Vec<CourtPrecedent>) -> (feed: String)
    ensures
        feed@ == rss_document(scourt_channel_model(), item_models(precedents_view(list@))),
{
    let config = scourt_channel();
    let items = feed_items(list);
    render(&config, &items)
}

} // verus!
