//! Gathering the precedents of the structured-JSON provider: one request for
//! the list, then one request for the detail of each precedent that names a
//! detail resource, in the order of the list. The shell sends the requests;
//! the answers are decoded here, and here it is decided what to ask next and
//! when the list is whole.

use crate::citation::{court_of, kind_of, Kind};
use crate::court_api::{
    case_type_of, judges_view, merged, no_detail, precedents_view, CaseType, CourtPrecedent, CourtPrecedentDetail,
    CourtPrecedentOverview, CourtType, DecisionType, DetailModel, Judge, JudgeModel, OverviewModel,
    PrecedentModel,
};
use crate::json::{
    as_list, as_natural, get, is_object, json_of, json_value, member, member_text, member_text_or_empty,
    parse, text_member, text_member_or_empty, values_view, Json,
};
use crate::text::{decimal, decimal_text};
use crate::transport::{FeedError, FetchRequest, Header, Method, RequestModel};
use vstd::prelude::*;
use vstd::string::*;

verus! {

/// Seconds for which an answer to the list request may be cached.
pub const PREC_LIST_CACHE_TTL: u32 = 60 * 15;

/// Seconds for which an answer to a detail request may be cached.
pub const PREC_DETAIL_CACHE_TTL: u32 = 60 * 60 * 24;

/// The address of the list of the `size` latest precedents.
pub open spec fn list_url(size: u8) -> Seq<char> {
    "https://library.scourt.go.kr/api/decisionSearch/result?&search_category=1&search_kind=2&facet_search_yn=Y&param_orderby_item=DECI_DATE&param_lib_orderby=DESC&param_lib_display="@
        + decimal(size as nat) + "&param_pageNo=1"@
}

/// The request for the list of the `size` latest precedents.
pub open spec fn list_request_model(size: u8) -> RequestModel {
    RequestModel {
        method: Method::Get,
        url: list_url(size),
        headers: seq![("User-Agent"@, "Mozilla/5.0"@), ("Accept"@, "application/json"@)],
        body: None,
        cache_ttl: PREC_LIST_CACHE_TTL,
    }
}

/// The part of a detail resource's name that tells its year: the characters
/// that fill its first two bytes. These are the first two characters where
/// both are ASCII, and the first character where it alone takes two bytes; a
/// name that two bytes do not split has no such part.
pub open spec fn year_part(name: Seq<char>) -> Option<Seq<char>> {
    if name.len() >= 2 && (name[0] as u32) < 0x80 && (name[1] as u32) < 0x80 {
        Some(name.take(2))
    } else if name.len() >= 1 && 0x80 <= (name[0] as u32) < 0x800 {
        Some(name.take(1))
    } else {
        None
    }
}

/// The form body that asks for the detail resource `name` of year `year`.
pub open spec fn detail_body(year: Seq<char>, name: Seq<char>) -> Seq<char> {
    "filePath=case_xml%2f20"@ + year + "%2f"@ + name
}

/// The request for the detail resource `name`, none where the name does not
/// tell its year.
pub open spec fn detail_request_model(name: Seq<char>) -> Option<RequestModel> {
    match year_part(name) {
        Some(year) => Some(
            RequestModel {
                method: Method::Post,
                url: "https://library.scourt.go.kr/api/decisionSearch/textxml/info"@,
                headers: seq![("Content-Type"@, "application/x-www-form-urlencoded"@)],
                body: Some(detail_body(year, name)),
                cache_ttl: PREC_DETAIL_CACHE_TTL,
            },
        ),
        None => None,
    }
}

/// Builds one header.
fn header(name: &str, value: &str) -> (h: Header)
    ensures
        h.name@ == name@,
        h.value@ == value@,
{
    Header { name: String::from_str(name), value: String::from_str(value) }
}

/// The request for the list of the `size` latest precedents.
pub fn list_request(size: u8) -> (req: FetchRequest)
    ensures
        req@ == list_request_model(size),
{
    let mut url = String::from_str(
        "https://library.scourt.go.kr/api/decisionSearch/result?&search_category=1&search_kind=2&facet_search_yn=Y&param_orderby_item=DECI_DATE&param_lib_orderby=DESC&param_lib_display=",
    );
    url.append(decimal_text(size as u32).as_str());
    url.append("&param_pageNo=1");
    let mut headers: Vec<Header> = Vec::new();
    headers.push(header("User-Agent", "Mozilla/5.0"));
    headers.push(header("Accept", "application/json"));
    let req = FetchRequest {
        method: Method::Get,
        url,
        headers,
        body: None,
        cache_ttl: PREC_LIST_CACHE_TTL,
    };
    assert(req@.headers =~= list_request_model(size).headers);
    req
}

/// The part of a detail resource's name that tells its year.
pub fn year_of(name: &str) -> (year: Option<&str>)
    ensures
        match year {
            Some(text) => year_part(name@) == Some(text@),
            None => year_part(name@) is None,
        },
{
    let len = name.unicode_len();
    if len == 0 {
        return None;
    }
    let first = name.get_char(0) as u32;
    if first < 0x80 {
        if len >= 2 && (name.get_char(1) as u32) < 0x80 {
            Some(name.substring_char(0, 2))
        } else {
            None
        }
    } else if first < 0x800 {
        Some(name.substring_char(0, 1))
    } else {
        None
    }
}

/// The request for the detail resource `name`.
pub fn detail_request(name: &str) -> (req: Option<FetchRequest>)
    ensures
        match req {
            Some(r) => detail_request_model(name@) == Some(r@),
            None => detail_request_model(name@) is None,
        },
{
    match year_of(name) {
        Some(year) => {
            let mut body = String::from_str("filePath=case_xml%2f20");
            body.append(year);
            body.append("%2f");
            body.append(name);
            let mut headers: Vec<Header> = Vec::new();
            headers.push(header("Content-Type", "application/x-www-form-urlencoded"));
            let req = FetchRequest {
                method: Method::Post,
                url: String::from_str(
                    "https://library.scourt.go.kr/api/decisionSearch/textxml/info",
                ),
                headers,
                body: Some(body),
                cache_ttl: PREC_DETAIL_CACHE_TTL,
            };
            assert(req@.headers =~= detail_request_model(name@)->0.headers);
            Some(req)
        },
        None => None,
    }
}

/// The overview that a JSON object describes. Serial number, title, case
/// number, court and date of decision must be there, the serial number as a
/// natural number of 32 bits and the others as text. The category is read
/// through its total mapping, unknown where it is no text; the detail
/// resource is named where that member is a text.
pub open spec fn overview_of(json: Json) -> Option<OverviewModel> {
    match (
        member(json, "SEQ_NO"@),
        member_text(json, "TITLE"@),
        member_text(json, "CASE_NUM"@),
        member_text(json, "LAW_DESC"@),
        member_text(json, "DECI_DATE"@),
    ) {
        (Some(Json::Natural(id)), Some(title), Some(case_id), Some(court), Some(date)) => if id
            <= u32::MAX {
            Some(
                OverviewModel {
                    id: id as u32,
                    title,
                    case_id,
                    court_type: court_of(court),
                    case_type: match member_text(json, "TRANS_CASE_CLASS_DESC"@) {
                        Some(text) => case_type_of(text),
                        None => CaseType::Unknown,
                    },
                    decision_date: date,
                    detail_file: member_text(json, "TEXT_FILE_LIST"@),
                },
            )
        } else {
            None
        },
        _ => None,
    }
}

/// The overviews that a run of JSON values describes, where each of them
/// describes one.
pub open spec fn overviews_of(items: Seq<Json>) -> Option<Seq<OverviewModel>> {
    if forall|i: int| 0 <= i < items.len() ==> overview_of(#[trigger] items[i]) is Some {
        Some(items.map_values(|j: Json| overview_of(j)->0))
    } else {
        None
    }
}

/// The overviews in the answer to the list request: the document must be an
/// object whose member `resultListData` is a list of overviews.
pub open spec fn listed(document: Option<Json>) -> Option<Seq<OverviewModel>> {
    match document {
        Some(json) => match member(json, "resultListData"@) {
            Some(Json::List(items)) => overviews_of(items),
            _ => None,
        },
        None => None,
    }
}

/// The judge that a JSON value describes; a text that is missing is empty.
pub open spec fn judge_of(json: Json) -> JudgeModel {
    JudgeModel {
        role: member_text_or_empty(json, "role"@),
        name: member_text_or_empty(json, "name"@),
        position: member_text_or_empty(json, "position"@),
    }
}

/// The bench that the member `judges` describes; empty where it is no list.
pub open spec fn bench_of(json: Json) -> Seq<JudgeModel> {
    match member(json, "judges"@) {
        Some(Json::List(items)) => items.map_values(|j: Json| judge_of(j)),
        _ => Seq::empty(),
    }
}

/// The detail that a JSON object describes. A text that is missing is empty,
/// a form of ruling that is missing or not known is unknown, a bench that is
/// missing is empty. A value that is no object describes no detail.
pub open spec fn detail_of(json: Json) -> Option<DetailModel> {
    if json is Object {
        Some(
            DetailModel {
                pub_date: member_text_or_empty(json, "pubDate"@),
                judge_abstract: member_text_or_empty(json, "judgeAbstract"@),
                judge_note: member_text_or_empty(json, "judgeNote"@),
                decision_type: match member_text(json, "decisionType"@) {
                    Some(text) => kind_of(text),
                    None => Kind::Unknown,
                },
                judges: bench_of(json),
            },
        )
    } else {
        None
    }
}

/// The detail in the answer to a detail request: the document must be an
/// object whose member `contents` describes a detail.
pub open spec fn detailed(document: Option<Json>) -> Option<DetailModel> {
    match document {
        Some(json) => match member(json, "contents"@) {
            Some(contents) => detail_of(contents),
            None => None,
        },
        None => None,
    }
}

/// Reads an overview from a JSON value.
pub fn read_overview(value: &serde_json::Value) -> (res: Option<CourtPrecedentOverview>)
    ensures
        match res {
            Some(overview) => overview_of(json_value(*value)) == Some(overview@),
            None => overview_of(json_value(*value)) is None,
        },
{
    let id = match get(value, "SEQ_NO") {
        Some(found) => match as_natural(found) {
            Some(n) => n,
            None => {
                return None;
            },
        },
        None => {
            return None;
        },
    };
    let title = match text_member(value, "TITLE") {
        Some(text) => text,
        None => {
            return None;
        },
    };
    let case_id = match text_member(value, "CASE_NUM") {
        Some(text) => text,
        None => {
            return None;
        },
    };
    let court = match text_member(value, "LAW_DESC") {
        Some(text) => text,
        None => {
            return None;
        },
    };
    let date = match text_member(value, "DECI_DATE") {
        Some(text) => text,
        None => {
            return None;
        },
    };
    if id > 0xffff_ffff {
        return None;
    }
    let case_type = match text_member(value, "TRANS_CASE_CLASS_DESC") {
        Some(text) => CaseType::new(text.to_owned()),
        None => CaseType::Unknown,
    };
    let detail_file = match text_member(value, "TEXT_FILE_LIST") {
        Some(text) => Some(text.to_owned()),
        None => None,
    };
    Some(
        CourtPrecedentOverview {
            id: id as u32,
            title: title.to_owned(),
            case_id: case_id.to_owned(),
            court_type: CourtType::new(court.to_owned()),
            case_type,
            decision_date: date.to_owned(),
            detail_file,
        },
    )
}

/// Reads the overviews from the answer to the list request.
pub fn decode_overview_list(text: &str) -> (res: Option<Vec<CourtPrecedentOverview>>)
    ensures
        match res {
            Some(list) => listed(json_of(text@)) == Some(overviews_view(list@)),
            None => listed(json_of(text@)) is None,
        },
{
    let document = match parse(text) {
        Ok(value) => value,
        Err(_) => {
            return None;
        },
    };
    let items = match get(&document, "resultListData") {
        Some(found) => match as_list(found) {
            Some(items) => items,
            None => {
                return None;
            },
        },
        None => {
            return None;
        },
    };
    let ghost models = values_view(items@);
    let mut list: Vec<CourtPrecedentOverview> = Vec::new();
    let mut i: usize = 0;
    while i < items.len()
        invariant
            i <= items.len(),
            models == values_view(items@),
            listed(json_of(text@)) == overviews_of(models),
            list@.len() == i,
            forall|k: int| 0 <= k < i ==> overview_of(#[trigger] models[k]) == Some(list@[k]@),
        decreases items.len() - i,
    {
        match read_overview(&items[i]) {
            Some(overview) => {
                list.push(overview);
            },
            None => {
                assert(overview_of(models[i as int]) is None);
                return None;
            },
        }
        i = i + 1;
    }
    assert(overviews_view(list@) =~= overviews_of(models)->0);
    Some(list)
}

/// Reads a judge from a JSON value.
pub fn read_judge(value: &serde_json::Value) -> (judge: Judge)
    ensures
        judge@ == judge_of(json_value(*value)),
{
    Judge {
        role: text_member_or_empty(value, "role"),
        name: text_member_or_empty(value, "name"),
        position: text_member_or_empty(value, "position"),
    }
}

/// Reads a detail from a JSON value.
pub fn read_detail(value: &serde_json::Value) -> (res: Option<CourtPrecedentDetail>)
    ensures
        match res {
            Some(detail) => detail_of(json_value(*value)) == Some(detail@),
            None => detail_of(json_value(*value)) is None,
        },
{
    if !is_object(value) {
        return None;
    }
    let decision_type = match text_member(value, "decisionType") {
        Some(text) => DecisionType::new(text.to_owned()),
        None => DecisionType::Unknown,
    };
    let mut judges: Vec<Judge> = Vec::new();
    match get(value, "judges") {
        Some(found) => match as_list(found) {
            Some(items) => {
                let ghost models = values_view(items@);
                let mut i: usize = 0;
                while i < items.len()
                    invariant
                        i <= items.len(),
                        models == values_view(items@),
                        judges@.len() == i,
                        forall|k: int|
                            0 <= k < i ==> (#[trigger] judges@[k])@ == judge_of(models[k]),
                    decreases items.len() - i,
                {
                    judges.push(read_judge(&items[i]));
                    i = i + 1;
                }
                assert(judges_view(judges@) =~= bench_of(json_value(*value)));
            },
            None => {
                assert(judges_view(judges@) =~= bench_of(json_value(*value)));
            },
        },
        None => {
            assert(judges_view(judges@) =~= bench_of(json_value(*value)));
        },
    }
    Some(
        CourtPrecedentDetail {
            pub_date: text_member_or_empty(value, "pubDate"),
            judge_abstract: text_member_or_empty(value, "judgeAbstract"),
            judge_note: text_member_or_empty(value, "judgeNote"),
            decision_type,
            judges,
        },
    )
}

/// Reads the detail from the answer to a detail request.
pub fn decode_detail(text: &str) -> (res: Option<CourtPrecedentDetail>)
    ensures
        match res {
            Some(detail) => detailed(json_of(text@)) == Some(detail@),
            None => detailed(json_of(text@)) is None,
        },
{
    match parse(text) {
        Ok(document) => match get(&document, "contents") {
            Some(contents) => read_detail(contents),
            None => None,
        },
        Err(_) => None,
    }
}

/// How far the gathering of a list has come.
#[derive(Debug)]
pub enum Gathering {
    /// The list was asked for.
    Listing,
    /// The detail of the first of `waiting` was asked for; `done` holds the
    /// precedents before it.
    Detailing { waiting: Vec<CourtPrecedentOverview>, done: Vec<CourtPrecedent> },
    /// The list was handed out, or the gathering gave up.
    Closed,
}

/// What the shell reports back.
#[derive(Debug)]
pub enum Event {
    /// The body of the answer to the request.
    Replied(String),
    /// The request could not be answered.
    Failed,
}

/// What the shell is to do next.
#[derive(Debug)]
pub enum Action {
    /// Send this request and report the answer.
    Fetch(FetchRequest),
    /// The list is whole.
    Finish(Vec<CourtPrecedent>),
    /// No list can be made.
    Abort(FeedError),
}

/// The mathematical values of a run of overviews.
pub open spec fn overviews_view(list: Seq<CourtPrecedentOverview>) -> Seq<OverviewModel> {
    list.map_values(|o: CourtPrecedentOverview| o@)
}

/// Mathematical value of a [`Gathering`].
pub ghost enum GatherModel {
    Listing,
    Detailing { waiting: Seq<OverviewModel>, done: Seq<PrecedentModel> },
    Closed,
}

/// Mathematical value of an [`Event`].
pub ghost enum EventModel {
    Replied(Seq<char>),
    Failed,
}

/// Mathematical value of an [`Action`].
pub ghost enum ActionModel {
    Fetch(RequestModel),
    Finish(Seq<PrecedentModel>),
    Abort(FeedError),
}

impl View for Gathering {
    type V = GatherModel;

    open spec fn view(&self) -> GatherModel {
        match self {
            Gathering::Listing => GatherModel::Listing,
            Gathering::Detailing { waiting, done } => GatherModel::Detailing {
                waiting: overviews_view(waiting@),
                done: precedents_view(done@),
            },
            Gathering::Closed => GatherModel::Closed,
        }
    }
}

impl View for Event {
    type V = EventModel;

    open spec fn view(&self) -> EventModel {
        match self {
            Event::Replied(body) => EventModel::Replied(body@),
            Event::Failed => EventModel::Failed,
        }
    }
}

impl View for Action {
    type V = ActionModel;

    open spec fn view(&self) -> ActionModel {
        match self {
            Action::Fetch(req) => ActionModel::Fetch(req@),
            Action::Finish(list) => ActionModel::Finish(precedents_view(list@)),
            Action::Abort(e) => ActionModel::Abort(*e),
        }
    }
}

/// Where the gathering stands with `waiting` still to come and `done`
/// complete, and what to do next. Overviews that name no detail resource are
/// completed at once with an empty detail; the first that names one is asked
/// for, or ends the gathering where its name does not tell the year; with
/// nothing waiting the list is whole.
pub open spec fn advance_model(waiting: Seq<OverviewModel>, done: Seq<PrecedentModel>) -> (
    GatherModel,
    ActionModel,
)
    decreases waiting.len(),
{
    if waiting.len() == 0 {
        (GatherModel::Closed, ActionModel::Finish(done))
    } else {
        match waiting[0].detail_file {
            Some(name) => match detail_request_model(name) {
                Some(req) => (GatherModel::Detailing { waiting, done }, ActionModel::Fetch(req)),
                None => (GatherModel::Closed, ActionModel::Abort(FeedError::Decode)),
            },
            None => advance_model(waiting.skip(1), done.push(merged(waiting[0], no_detail()))),
        }
    }
}

/// The gathering given up with error `e`.
pub open spec fn given_up(e: FeedError) -> (GatherModel, ActionModel) {
    (GatherModel::Closed, ActionModel::Abort(e))
}

/// The transition of the gathering.
///
/// - A failure, or an answer when nothing is awaited, ends it as a failed
///   exchange.
/// - The answer to the list request is decoded, and the gathering advances
///   over the overviews.
/// - The answer to a detail request is decoded and completes the first
///   waiting overview; the gathering advances over the rest.
/// - An answer that cannot be decoded ends it.
pub open spec fn step_model(state: GatherModel, event: EventModel) -> (GatherModel, ActionModel) {
    match event {
        EventModel::Failed => given_up(FeedError::Transport),
        EventModel::Replied(body) => match state {
            GatherModel::Closed => given_up(FeedError::Transport),
            GatherModel::Listing => match listed(json_of(body)) {
                Some(list) => advance_model(list, Seq::empty()),
                None => given_up(FeedError::Decode),
            },
            GatherModel::Detailing { waiting, done } => if waiting.len() == 0 {
                given_up(FeedError::Transport)
            } else {
                match detailed(json_of(body)) {
                    Some(detail) => advance_model(
                        waiting.skip(1),
                        done.push(merged(waiting[0], detail)),
                    ),
                    None => given_up(FeedError::Decode),
                }
            },
        },
    }
}

/// The precedents that overviews make with an empty detail each.
pub open spec fn completed(overviews: Seq<OverviewModel>) -> Seq<PrecedentModel> {
    overviews.map_values(|o: OverviewModel| merged(o, no_detail()))
}

/// A failure ends the gathering, whatever its state: no list comes out.
pub proof fn lemma_failure_aborts(state: GatherModel)
    ensures
        step_model(state, EventModel::Failed) == given_up(FeedError::Transport),
{
}

/// Overviews that name no detail resource are completed without a request:
/// where none of the list names one, the list is whole at once, each record
/// with an empty detail, in the order of the overviews.
pub proof fn lemma_no_reference_no_fetch(waiting: Seq<OverviewModel>, done: Seq<PrecedentModel>)
    requires
        forall|i: int| 0 <= i < waiting.len() ==> (#[trigger] waiting[i]).detail_file is None,
    ensures
        advance_model(waiting, done) == (
            GatherModel::Closed,
            ActionModel::Finish(done + completed(waiting)),
        ),
    decreases waiting.len(),
{
    if waiting.len() == 0 {
        assert(done + completed(waiting) =~= done);
    } else {
        let rest = waiting.skip(1);
        assert forall|i: int| 0 <= i < rest.len() implies (#[trigger] rest[i]).detail_file is None by {
            assert(rest[i] == waiting[i + 1]);
        }
        lemma_no_reference_no_fetch(rest, done.push(merged(waiting[0], no_detail())));
        assert(done.push(merged(waiting[0], no_detail())) + completed(rest) =~= done + completed(
            waiting,
        ));
    }
}

/// The gathering keeps the order of the list. When it advances, the records
/// that are complete grow by the overviews it passed, in their order and each
/// with an empty detail; what still waits is the rest of the list, and a
/// request goes out only for an overview that names a detail resource.
pub proof fn lemma_advance_keeps_order(waiting: Seq<OverviewModel>, done: Seq<PrecedentModel>)
    ensures
        match advance_model(waiting, done) {
            (GatherModel::Detailing { waiting: rest, done: list }, ActionModel::Fetch(req)) => {
                let passed = list.len() - done.len();
                &&& 0 <= passed < waiting.len()
                &&& rest == waiting.skip(passed)
                &&& list == done + completed(waiting.take(passed))
                &&& waiting[passed].detail_file matches Some(name)
                &&& detail_request_model(name) == Some(req)
            },
            (GatherModel::Closed, ActionModel::Finish(list)) => list == done + completed(waiting),
            (GatherModel::Closed, ActionModel::Abort(e)) => e == FeedError::Decode,
            _ => false,
        },
    decreases waiting.len(),
{
    if waiting.len() == 0 {
        assert(done + completed(waiting) =~= done);
    } else {
        match waiting[0].detail_file {
            Some(name) => {
                assert(waiting.skip(0) =~= waiting);
                assert(done + completed(waiting.take(0)) =~= done);
            },
            None => {
                let rest = waiting.skip(1);
                let more = done.push(merged(waiting[0], no_detail()));
                lemma_advance_keeps_order(rest, more);
                match advance_model(rest, more) {
                    (GatherModel::Detailing { waiting: left, done: list }, ActionModel::Fetch(_)) => {
                        let passed = list.len() - more.len();
                        assert(rest.skip(passed) =~= waiting.skip(passed + 1));
                        assert(more + completed(rest.take(passed)) =~= done + completed(
                            waiting.take(passed + 1),
                        ));
                        assert(rest[passed] == waiting[passed + 1]);
                    },
                    (GatherModel::Closed, ActionModel::Finish(list)) => {
                        assert(more + completed(rest) =~= done + completed(waiting));
                    },
                    _ => {},
                }
            },
        }
    }
}

/// The serial numbers of a run of overviews, in order.
pub open spec fn overview_serials(list: Seq<OverviewModel>) -> Seq<u32> {
    list.map_values(|o: OverviewModel| o.id)
}

/// The serial numbers of a run of precedents, in order.
pub open spec fn precedent_serials(list: Seq<PrecedentModel>) -> Seq<u32> {
    list.map_values(|p: PrecedentModel| p.id)
}

/// The serial numbers that a state and an action hold, in order: those of the
/// complete precedents, then those of the waiting overviews.
pub open spec fn serials(outcome: (GatherModel, ActionModel)) -> Seq<u32> {
    match outcome {
        (GatherModel::Detailing { waiting, done }, _) => precedent_serials(done)
            + overview_serials(waiting),
        (_, ActionModel::Finish(list)) => precedent_serials(list),
        _ => Seq::empty(),
    }
}

/// Advancing keeps the serial numbers in the order of the list, whether it
/// stops at a request or hands the list out.
pub proof fn lemma_advance_keeps_serials(waiting: Seq<OverviewModel>, done: Seq<PrecedentModel>)
    ensures
        advance_model(waiting, done).1 is Abort || serials(advance_model(waiting, done))
            == precedent_serials(done) + overview_serials(waiting),
    decreases waiting.len(),
{
    if waiting.len() == 0 {
        assert(precedent_serials(done) + overview_serials(waiting) =~= precedent_serials(done));
    } else if waiting[0].detail_file is None {
        let more = done.push(merged(waiting[0], no_detail()));
        lemma_advance_keeps_serials(waiting.skip(1), more);
        assert(precedent_serials(more) + overview_serials(waiting.skip(1)) =~= precedent_serials(
            done,
        ) + overview_serials(waiting));
    }
}

/// A detail that arrives changes no serial number and no order: the
/// precedents come out in the order in which the list named them.
pub proof fn lemma_detail_keeps_serials(
    waiting: Seq<OverviewModel>,
    done: Seq<PrecedentModel>,
    body: Seq<char>,
)
    requires
        waiting.len() > 0,
    ensures
        ({
            let state = GatherModel::Detailing { waiting, done };
            let next = step_model(state, EventModel::Replied(body));
            next.1 is Abort || serials(next) == precedent_serials(done) + overview_serials(waiting)
        }),
{
    match detailed(json_of(body)) {
        Some(detail) => {
            let more = done.push(merged(waiting[0], detail));
            lemma_advance_keeps_serials(waiting.skip(1), more);
            assert(precedent_serials(more) + overview_serials(waiting.skip(1))
                =~= precedent_serials(done) + overview_serials(waiting));
        },
        None => {},
    }
}

/// The mathematical value of a state and an action.
pub open spec fn outcome_view(outcome: (Gathering, Action)) -> (GatherModel, ActionModel) {
    (outcome.0@, outcome.1@)
}

/// Completes what needs no detail and says what to do next.
fn advance(waiting: Vec<CourtPrecedentOverview>, done: Vec<CourtPrecedent>) -> (outcome: (
    Gathering,
    Action,
))
    ensures
        outcome_view(outcome) == advance_model(overviews_view(waiting@), precedents_view(done@)),
{
    let mut rest = waiting;
    let mut list = done;
    loop
        invariant
            advance_model(overviews_view(rest@), precedents_view(list@)) == advance_model(
                overviews_view(waiting@),
                precedents_view(done@),
            ),
        decreases rest.len(),
    {
        if rest.len() == 0 {
            return (Gathering::Closed, Action::Finish(list));
        }
        let wanted = match &rest[0].detail_file {
            Some(name) => Some(detail_request(name.as_str())),
            None => None,
        };
        match wanted {
            Some(Some(req)) => {
                return (Gathering::Detailing { waiting: rest, done: list }, Action::Fetch(req));
            },
            Some(None) => {
                return (Gathering::Closed, Action::Abort(FeedError::Decode));
            },
            None => {},
        }
        let ghost before = rest@;
        let ghost had = list@;
        let first = rest.remove(0);
        list.push(CourtPrecedent::new(first, CourtPrecedentDetail::default()));
        assert(overviews_view(rest@) =~= overviews_view(before).skip(1));
        assert(precedents_view(list@) =~= precedents_view(had).push(
            merged(before[0]@, no_detail()),
        ));
    }
}

impl Gathering {
    /// Begins the gathering of the `list_size` latest precedents: the list is
    /// asked for.
    pub fn begin(list_size: u8) -> (outcome: (Gathering, Action))
        ensures
            outcome.0@ == GatherModel::Listing,
            outcome.1@ == ActionModel::Fetch(list_request_model(list_size)),
    {
        (Gathering::Listing, Action::Fetch(list_request(list_size)))
    }

    /// Takes what the shell reports and says what to do next.
    pub fn step(self, event: Event) -> (outcome: (Gathering, Action))
        ensures
            outcome_view(outcome) == step_model(self@, event@),
    {
        let body = match event {
            Event::Failed => {
                return (Gathering::Closed, Action::Abort(FeedError::Transport));
            },
            Event::Replied(body) => body,
        };
        match self {
            Gathering::Closed => (Gathering::Closed, Action::Abort(FeedError::Transport)),
            Gathering::Listing => match decode_overview_list(body.as_str()) {
                Some(list) => {
                    let done: Vec<CourtPrecedent> = Vec::new();
                    assert(precedents_view(done@) =~= Seq::empty());
                    advance(list, done)
                },
                None => (Gathering::Closed, Action::Abort(FeedError::Decode)),
            },
            Gathering::Detailing { waiting, done } => {
                let mut waiting = waiting;
                let mut done = done;
                if waiting.len() == 0 {
                    return (Gathering::Closed, Action::Abort(FeedError::Transport));
                }
                match decode_detail(body.as_str()) {
                    Some(detail) => {
                        let ghost before = waiting@;
                        let ghost had = done@;
                        let first = waiting.remove(0);
                        done.push(CourtPrecedent::new(first, detail));
                        assert(overviews_view(waiting@) =~= overviews_view(before).skip(1));
                        assert(precedents_view(done@) =~= precedents_view(had).push(
                            merged(before[0]@, detail@),
                        ));
                        advance(waiting, done)
                    },
                    None => (Gathering::Closed, Action::Abort(FeedError::Decode)),
                }
            },
        }
    }
}

} // verus!
