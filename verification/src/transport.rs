//! What the library asks of the shell that hosts it: requests, described as
//! plain values, and the ways in which a feed can fail. The shell sends the
//! requests and hands the answers back; the library never touches a network.

use vstd::prelude::*;

verus! {

/// Why a feed could not be made.
#[derive(Clone, Copy, Debug)]
pub enum FeedError {
    /// The shell could not get an answer.
    Transport,
    /// An answer could not be read, or lacks what a record needs.
    Decode,
    /// An answer that should be XML says it is something else.
    UnexpectedContentType,
}

/// The method of a request.
#[derive(Clone, Copy, Debug)]
pub enum Method {
    Get,
    Post,
}

/// One header of a request.
#[derive(Debug)]
pub struct Header {
    pub name: String,
    pub value: String,
}

/// A request for the shell to send. Answers may be kept by the shell's cache
/// for `cache_ttl` seconds.
#[derive(Debug)]
pub struct FetchRequest {
    pub method: Method,
    pub url: String,
    pub headers: Vec<Header>,
    pub body: Option<String>,
    pub cache_ttl: u32,
}

/// Mathematical value of a [`FetchRequest`]: headers as pairs of name and
/// value.
pub ghost struct RequestModel {
    pub method: Method,
    pub url: Seq<char>,
    pub headers: Seq<(Seq<char>, Seq<char>)>,
    pub body: Option<Seq<char>>,
    pub cache_ttl: u32,
}

/// The mathematical values of a run of headers.
pub open spec fn headers_view(headers: Seq<Header>) -> Seq<(Seq<char>, Seq<char>)> {
    headers.map_values(|h: Header| (h.name@, h.value@))
}

impl View for FetchRequest {
    type V = RequestModel;

    open spec fn view(&self) -> RequestModel {
        RequestModel {
            method: self.method,
            url: self.url@,
            headers: headers_view(self.headers@),
            body: match self.body {
                Some(text) => Some(text@),
                None => None,
            },
            cache_ttl: self.cache_ttl,
        }
    }
}

} // verus!
