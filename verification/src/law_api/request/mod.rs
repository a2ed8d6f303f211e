//! Collecting the precedents of the XML provider: one request for the list,
//! then one request per record for the grounds of its judgment, in the order
//! of the list. The shell sends the requests; the answers are checked and
//! read here.

pub mod xml_parse;

use crate::citation::{court_name, CourtModel};
use crate::law_api::request::xml_parse::{
    parse_court_description, parse_court_precedent_list, read_grounds, read_list, records_view,
    xml_tokens,
};
use crate::law_api::{opt_text, CourtPrecedent, CourtType, PrecedentModel};
use crate::text::{contains_text, decimal, decimal_text, has_part};
use crate::transport::{FeedError, FetchRequest, Header, Method, RequestModel};
use vstd::prelude::*;
use vstd::string::*;

verus! {

/// Seconds for which an answer to the list request may be cached.
pub const PREC_LIST_CACHE_TTL: u32 = 60 * 15;

/// Seconds for which the grounds of a judgment may be cached.
pub const PREC_DESCRIPTION_CACHE_TTL: u32 = 60 * 60 * 24;

/// The provider's code for the kind of court: one for the Supreme Court, one
/// for all others.
pub open spec fn org_code(court: CourtModel) -> Seq<char> {
    match court {
        CourtModel::SupremeCourt => "400201"@,
        CourtModel::Court(_) => "400202"@,
    }
}

/// The address of the list of the `count` latest precedents of `court`, asked
/// for under the credential `auth`.
pub open spec fn list_url(auth: Seq<char>, court: CourtModel, count: u8) -> Seq<char> {
    "https://www.law.go.kr/DRF/lawSearch.do?OC="@ + auth + "&target=prec&org="@ + org_code(court)
        + "&curt="@ + court_name(court) + "&display="@ + decimal(count as nat) + "&sort=ddes"@
}

/// The address of the document that holds the grounds of precedent `id`.
pub open spec fn description_url(auth: Seq<char>, id: u32) -> Seq<char> {
    "http://www.law.go.kr/DRF/lawService.do?OC="@ + auth + "&target=prec&ID="@ + decimal(
        id as nat,
    ) + "&type=XML"@
}

/// A plain request for `url`, cacheable for `cache_ttl` seconds.
pub open spec fn get_model(url: Seq<char>, cache_ttl: u32) -> RequestModel {
    RequestModel { method: Method::Get, url, headers: Seq::empty(), body: None, cache_ttl }
}

/// Whether a content type names XML: it is present and holds `xml`.
pub open spec fn names_xml(content_type: Option<Seq<char>>) -> bool {
    match content_type {
        Some(text) => has_part(text, "xml"@),
        None => false,
    }
}

/// A plain request for `url`.
fn get_request(url: String, cache_ttl: u32) -> (req: FetchRequest)
    ensures
        req@ == get_model(url@, cache_ttl),
{
    let headers: Vec<Header> = Vec::new();
    let req = FetchRequest { method: Method::Get, url, headers, body: None, cache_ttl };
    assert(req@.headers =~= Seq::empty());
    req
}

/// The request for the list of the `count` latest precedents of `court`.
pub fn list_request(auth: &str, court: &CourtType, count: u8) -> (req: FetchRequest)
    ensures
        req@ == get_model(list_url(auth@, court@, count), PREC_LIST_CACHE_TTL),
{
    let org = match court {
        CourtType::SupremeCourt => "400201",
        CourtType::Court(_) => "400202",
    };
    let mut url = String::from_str("https://www.law.go.kr/DRF/lawSearch.do?OC=");
    url.append(auth);
    url.append("&target=prec&org=");
    url.append(org);
    url.append("&curt=");
    url.append(court.name().as_str());
    url.append("&display=");
    url.append(decimal_text(count as u32).as_str());
    url.append("&sort=ddes");
    get_request(url, PREC_LIST_CACHE_TTL)
}

/// The request for the grounds of precedent `id`.
pub fn description_request(auth: &str, id: u32) -> (req: FetchRequest)
    ensures
        req@ == get_model(description_url(auth@, id), PREC_DESCRIPTION_CACHE_TTL),
{
    let mut url = String::from_str("http://www.law.go.kr/DRF/lawService.do?OC=");
    url.append(auth);
    url.append("&target=prec&ID=");
    url.append(decimal_text(id).as_str());
    url.append("&type=XML");
    get_request(url, PREC_DESCRIPTION_CACHE_TTL)
}

/// Whether a content type names XML.
pub fn is_xml(content_type: &Option<String>) -> (ok: bool)
    ensures
        ok == names_xml(opt_text(*content_type)),
{
    match content_type {
        Some(text) => contains_text(text.as_str(), "xml"),
        None => false,
    }
}

/// An answer of the provider: its content type, where it names one, and its
/// body as text.
#[derive(Debug)]
pub struct Reply {
    pub content_type: Option<String>,
    pub body: String,
}

/// Mathematical value of a [`Reply`].
pub ghost struct ReplyModel {
    pub content_type: Option<Seq<char>>,
    pub body: Seq<char>,
}

impl View for Reply {
    type V = ReplyModel;

    open spec fn view(&self) -> ReplyModel {
        ReplyModel { content_type: opt_text(self.content_type), body: self.body@ }
    }
}

/// What the shell reports back.
#[derive(Debug)]
pub enum Event {
    /// The answer to the request.
    Replied(Reply),
    /// The request could not be answered.
    Failed,
}

/// Mathematical value of an [`Event`].
pub ghost enum EventModel {
    Replied(ReplyModel),
    Failed,
}

impl View for Event {
    type V = EventModel;

    open spec fn view(&self) -> EventModel {
        match self {
            Event::Replied(reply) => EventModel::Replied(reply@),
            Event::Failed => EventModel::Failed,
        }
    }
}

/// What the shell is to do next.
#[derive(Debug)]
pub enum Action {
    /// Send this request and report the answer.
    Fetch(FetchRequest),
    /// The list is whole.
    Finish(Vec<CourtPrecedent>),
    /// No list can be made.
    Abort(FeedError),
}

/// Mathematical value of an [`Action`].
pub ghost enum ActionModel {
    Fetch(RequestModel),
    Finish(Seq<PrecedentModel>),
    Abort(FeedError),
}

impl View for Action {
    type V = ActionModel;

    open spec fn view(&self) -> ActionModel {
        match self {
            Action::Fetch(req) => ActionModel::Fetch(req@),
            Action::Finish(list) => ActionModel::Finish(records_view(list@)),
            Action::Abort(e) => ActionModel::Abort(*e),
        }
    }
}

/// How far the collecting of a list has come.
#[derive(Debug)]
pub enum Stage {
    /// The list was asked for.
    Listing,
    /// The grounds of the first of `waiting` were asked for; `done` holds the
    /// records before it, each with its grounds.
    Describing { waiting: Vec<CourtPrecedent>, done: Vec<CourtPrecedent> },
    /// The list was handed out, or the collecting gave up.
    Closed,
}

/// Mathematical value of a [`Stage`].
pub ghost enum StageModel {
    Listing,
    Describing { waiting: Seq<PrecedentModel>, done: Seq<PrecedentModel> },
    Closed,
}

impl View for Stage {
    type V = StageModel;

    open spec fn view(&self) -> StageModel {
        match self {
            Stage::Listing => StageModel::Listing,
            Stage::Describing { waiting, done } => StageModel::Describing {
                waiting: records_view(waiting@),
                done: records_view(done@),
            },
            Stage::Closed => StageModel::Closed,
        }
    }
}

/// The collecting of one list: the credential under which it asks, and how
/// far it has come.
#[derive(Debug)]
pub struct Collecting {
    pub auth: String,
    pub stage: Stage,
}

/// Mathematical value of a [`Collecting`].
pub ghost struct CollectModel {
    pub auth: Seq<char>,
    pub stage: StageModel,
}

impl View for Collecting {
    type V = CollectModel;

    open spec fn view(&self) -> CollectModel {
        CollectModel { auth: self.auth@, stage: self.stage@ }
    }
}

/// The record `p` with `text` as the grounds of its judgment.
pub open spec fn described(p: PrecedentModel, text: Seq<char>) -> PrecedentModel {
    PrecedentModel { description: Some(text), ..p }
}

/// Where the collecting stands with `waiting` still without grounds and
/// `done` complete: the grounds of the first waiting record are asked for, or
/// with none waiting the list is whole.
pub open spec fn describe_next(
    auth: Seq<char>,
    waiting: Seq<PrecedentModel>,
    done: Seq<PrecedentModel>,
) -> (CollectModel, ActionModel) {
    if waiting.len() > 0 {
        (
            CollectModel { auth, stage: StageModel::Describing { waiting, done } },
            ActionModel::Fetch(
                get_model(description_url(auth, waiting[0].id), PREC_DESCRIPTION_CACHE_TTL),
            ),
        )
    } else {
        (CollectModel { auth, stage: StageModel::Closed }, ActionModel::Finish(done))
    }
}

/// The collecting given up with error `e`.
pub open spec fn given_up(auth: Seq<char>, e: FeedError) -> (CollectModel, ActionModel) {
    (CollectModel { auth, stage: StageModel::Closed }, ActionModel::Abort(e))
}

/// The transition of the collecting.
///
/// - A failure, or an answer when nothing is awaited, ends it as a failed
///   exchange.
/// - An answer whose content type does not name XML ends it.
/// - The list is read from its document, and the collecting goes on to the
///   grounds of the first record.
/// - Grounds are read from their document and complete the first waiting
///   record; the collecting goes on to the next.
/// - A document that cannot be read ends it.
pub open spec fn step_model(state: CollectModel, event: EventModel) -> (CollectModel, ActionModel) {
    match event {
        EventModel::Failed => given_up(state.auth, FeedError::Transport),
        EventModel::Replied(reply) => match state.stage {
            StageModel::Closed => given_up(state.auth, FeedError::Transport),
            StageModel::Listing => if !names_xml(reply.content_type) {
                given_up(state.auth, FeedError::UnexpectedContentType)
            } else {
                match read_list(xml_tokens(reply.body, true)) {
                    Ok(records) => describe_next(state.auth, records, Seq::empty()),
                    Err(_) => given_up(state.auth, FeedError::Decode),
                }
            },
            StageModel::Describing { waiting, done } => if waiting.len() == 0 {
                given_up(state.auth, FeedError::Transport)
            } else if !names_xml(reply.content_type) {
                given_up(state.auth, FeedError::UnexpectedContentType)
            } else {
                match read_grounds(xml_tokens(reply.body, true)) {
                    Ok(text) => describe_next(
                        state.auth,
                        waiting.skip(1),
                        done.push(described(waiting[0], text)),
                    ),
                    Err(_) => given_up(state.auth, FeedError::Decode),
                }
            },
        },
    }
}

/// A failure ends the collecting, whatever its state: no list comes out.
pub proof fn lemma_failure_aborts(state: CollectModel)
    ensures
        step_model(state, EventModel::Failed) == given_up(state.auth, FeedError::Transport),
{
}

/// An answer that does not say it is XML is never read: it ends the
/// collecting while a document is awaited.
pub proof fn lemma_content_type_is_checked(state: CollectModel, reply: ReplyModel)
    requires
        !names_xml(reply.content_type),
        state.stage is Listing || (state.stage matches StageModel::Describing { waiting, .. }
            && waiting.len() > 0),
    ensures
        step_model(state, EventModel::Replied(reply)) == given_up(
            state.auth,
            FeedError::UnexpectedContentType,
        ),
{
}

/// Grounds that arrive complete the first waiting record where it stands: the
/// records, complete and waiting together, keep their number and their order,
/// and only that one record changes. The next request goes out while records
/// wait, and the list comes out when none does.
pub proof fn lemma_described_in_place(state: CollectModel, reply: ReplyModel)
    requires
        state.stage matches StageModel::Describing { waiting, .. } && waiting.len() > 0,
        names_xml(reply.content_type),
        read_grounds(xml_tokens(reply.body, true)) is Ok,
    ensures
        ({
            let waiting = state.stage->waiting;
            let done = state.stage->done;
            let text = read_grounds(xml_tokens(reply.body, true))->Ok_0;
            let all = (done + waiting).update(done.len() as int, described(waiting[0], text));
            let (next, action) = step_model(state, EventModel::Replied(reply));
            match next.stage {
                StageModel::Describing { waiting: rest, done: more } => {
                    &&& more + rest == all
                    &&& more.len() == done.len() + 1
                    &&& action is Fetch
                },
                StageModel::Closed => action == ActionModel::Finish(all),
                StageModel::Listing => false,
            }
        }),
{
    let waiting = state.stage->waiting;
    let done = state.stage->done;
    let text = read_grounds(xml_tokens(reply.body, true))->Ok_0;
    let all = (done + waiting).update(done.len() as int, described(waiting[0], text));
    assert(done.push(described(waiting[0], text)) + waiting.skip(1) =~= all);
    if waiting.len() == 1 {
        assert(done.push(described(waiting[0], text)) =~= all);
    }
}

/// The mathematical value of a state and an action.
pub open spec fn outcome_view(outcome: (Collecting, Action)) -> (CollectModel, ActionModel) {
    (outcome.0@, outcome.1@)
}

/// Gives the collecting up.
fn give_up(auth: String, e: FeedError) -> (outcome: (Collecting, Action))
    ensures
        outcome_view(outcome) == given_up(auth@, e),
{
    (Collecting { auth, stage: Stage::Closed }, Action::Abort(e))
}

/// Asks for the grounds of the first waiting record, or hands the list out.
fn next_description(auth: String, waiting: Vec<CourtPrecedent>, done: Vec<CourtPrecedent>) -> (outcome:
    (Collecting, Action))
    ensures
        outcome_view(outcome) == describe_next(auth@, records_view(waiting@), records_view(done@)),
{
    if waiting.len() > 0 {
        let req = description_request(auth.as_str(), waiting[0].id);
        (Collecting { auth, stage: Stage::Describing { waiting, done } }, Action::Fetch(req))
    } else {
        (Collecting { auth, stage: Stage::Closed }, Action::Finish(done))
    }
}

impl Collecting {
    /// Begins the collecting of the `count` latest precedents of
    /// `court_type` under the credential `auth`: the list is asked for.
    pub fn begin(auth: String, court_type: &CourtType, count: u8) -> (outcome: (Collecting, Action))
        ensures
            outcome.0@ == (CollectModel { auth: auth@, stage: StageModel::Listing }),
            outcome.1@ == ActionModel::Fetch(
                get_model(list_url(auth@, court_type@, count), PREC_LIST_CACHE_TTL),
            ),
    {
        let req = list_request(auth.as_str(), court_type, count);
        (Collecting { auth, stage: Stage::Listing }, Action::Fetch(req))
    }

    /// Takes what the shell reports and says what to do next.
    pub fn step(self, event: Event) -> (outcome: (Collecting, Action))
        ensures
            outcome_view(outcome) == step_model(self@, event@),
    {
        let Collecting { auth, stage } = self;
        let reply = match event {
            Event::Failed => {
                return give_up(auth, FeedError::Transport);
            },
            Event::Replied(reply) => reply,
        };
        match stage {
            Stage::Closed => give_up(auth, FeedError::Transport),
            Stage::Listing => {
                if !is_xml(&reply.content_type) {
                    return give_up(auth, FeedError::UnexpectedContentType);
                }
                match parse_court_precedent_list(&reply.body) {
                    Ok(records) => {
                        let done: Vec<CourtPrecedent> = Vec::new();
                        assert(records_view(done@) =~= Seq::empty());
                        next_description(auth, records, done)
                    },
                    Err(_) => give_up(auth, FeedError::Decode),
                }
            },
            Stage::Describing { waiting, done } => {
                let mut waiting = waiting;
                let mut done = done;
                if waiting.len() == 0 {
                    return give_up(auth, FeedError::Transport);
                }
                if !is_xml(&reply.content_type) {
                    return give_up(auth, FeedError::UnexpectedContentType);
                }
                match parse_court_description(&reply.body) {
                    Ok(text) => {
                        let ghost before = waiting@;
                        let ghost had = done@;
                        let mut first = waiting.remove(0);
                        first.description = Some(text);
                        done.push(first);
                        assert(records_view(waiting@) =~= records_view(before).skip(1));
                        assert(records_view(done@) =~= records_view(had).push(
                            described(before[0]@, text@),
                        ));
                        next_description(auth, waiting, done)
                    },
                    Err(_) => give_up(auth, FeedError::Decode),
                }
            },
        }
    }
}

} // verus!
