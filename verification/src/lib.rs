//! Legal-precedent feeds. Precedents are ingested from two court data
//! providers, one that answers in JSON and one that answers in XML, cited
//! under one set of rules and rendered as RSS 2.0 text.
//!
//! The library never touches a network: it describes the requests to send,
//! reads the answers it is handed, and decides what to ask next.

pub mod citation;
pub mod court_api;
pub mod feed;
pub mod ingest;
pub mod json;
pub mod law_api;
pub mod pubdate;
pub mod rss;
pub mod text;
pub mod transport;
