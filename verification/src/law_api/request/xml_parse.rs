//! Reading the XML provider's documents: the list of precedents and the
//! grounds of one judgment. Both are forward scans over the events of a
//! document, advanced by a transition function that does not depend on where
//! the events come from.

use crate::citation::{court_of, kind_of};
use crate::law_api::{
    blank_precedent, precedents_view, CourtPrecedent, CourtType, DecisionType, PrecedentModel,
};
use crate::text::{numeral_value, parse_u32, text_eq};
use quick_xml::events::Event;
use quick_xml::Reader;
use vstd::prelude::*;
use vstd::string::*;

verus! {

/// One event of an XML document, as far as the scans read it.
#[derive(Debug)]
pub enum XmlEvent {
    /// A start tag, by its name.
    Start(String),
    /// An end tag, by its name.
    End(String),
    /// Character data between tags, unescaped.
    Text(String),
    /// The content of a CDATA section, verbatim.
    CData(String),
    /// The end of the document.
    Eof,
    /// Anything else: an empty element, a comment, a declaration.
    Other,
}

/// Mathematical value of an [`XmlEvent`].
pub ghost enum XmlToken {
    Start(Seq<char>),
    End(Seq<char>),
    Text(Seq<char>),
    CData(Seq<char>),
    Eof,
    Other,
}

impl View for XmlEvent {
    type V = XmlToken;

    open spec fn view(&self) -> XmlToken {
        match self {
            XmlEvent::Start(name) => XmlToken::Start(name@),
            XmlEvent::End(name) => XmlToken::End(name@),
            XmlEvent::Text(text) => XmlToken::Text(text@),
            XmlEvent::CData(text) => XmlToken::CData(text@),
            XmlEvent::Eof => XmlToken::Eof,
            XmlEvent::Other => XmlToken::Other,
        }
    }
}

/// Why a document could not be read.
#[derive(Clone, Copy, Debug)]
pub enum XmlError {
    /// The document is not well-formed XML, or ends too early.
    Malformed,
    /// A field of a record closes before any record was opened.
    NoRecord,
    /// A field closes, and no text came before it.
    NoText,
    /// The serial number is not a decimal number of 32 bits.
    BadSerial,
    /// The document ends and never closed the grounds of the judgment.
    NoGrounds,
}

/// The fields of a record that the list names.
#[derive(Clone, Copy, Debug)]
pub enum Field {
    Serial,
    CaseName,
    CaseCode,
    DecisionDate,
    Court,
    CaseType,
    DecisionType,
}

/// The field that a tag name labels, none for any other name.
pub open spec fn field_of(name: Seq<char>) -> Option<Field> {
    if name == "판례일련번호"@ {
        Some(Field::Serial)
    } else if name == "사건명"@ {
        Some(Field::CaseName)
    } else if name == "사건번호"@ {
        Some(Field::CaseCode)
    } else if name == "선고일자"@ {
        Some(Field::DecisionDate)
    } else if name == "법원명"@ {
        Some(Field::Court)
    } else if name == "사건종류명"@ {
        Some(Field::CaseType)
    } else if name == "판결유형"@ {
        Some(Field::DecisionType)
    } else {
        None
    }
}

/// Whether `name` is the tag that bounds one record of the list.
pub open spec fn is_record_tag(name: Seq<char>) -> bool {
    name == "prec"@
}

/// Whether `name` is the tag that holds the grounds of a judgment.
pub open spec fn is_grounds_tag(name: Seq<char>) -> bool {
    name == "판시사항"@
}

/// The record `p` with `text` put into `field`. Court and form of ruling go
/// through their total mappings; the serial number must be a numeral.
pub open spec fn assign(p: PrecedentModel, field: Field, text: Seq<char>) -> Result<
    PrecedentModel,
    XmlError,
> {
    match field {
        Field::Serial => match numeral_value(text) {
            Some(id) => Ok(PrecedentModel { id, ..p }),
            None => Err(XmlError::BadSerial),
        },
        Field::CaseName => Ok(PrecedentModel { case_name: Some(text), ..p }),
        Field::CaseCode => Ok(PrecedentModel { case_code: Some(text), ..p }),
        Field::DecisionDate => Ok(PrecedentModel { decision_date: Some(text), ..p }),
        Field::Court => Ok(PrecedentModel { court: Some(court_of(text)), ..p }),
        Field::CaseType => Ok(PrecedentModel { case_type: Some(text), ..p }),
        Field::DecisionType => Ok(PrecedentModel { decision_type: Some(kind_of(text)), ..p }),
    }
}

/// The state of a scan over a list: the records opened so far, in document
/// order, and the text that came last.
#[derive(Debug)]
pub struct ListScan {
    /// The records opened so far; the last one is being filled.
    pub records: Vec<CourtPrecedent>,
    /// The most recent text, until a record opens or closes.
    pub pending: Option<String>,
}

/// Mathematical value of a [`ListScan`].
pub ghost struct ScanModel {
    pub records: Seq<PrecedentModel>,
    pub pending: Option<Seq<char>>,
}

/// The mathematical values of a run of records.
pub open spec fn records_view(records: Seq<CourtPrecedent>) -> Seq<PrecedentModel> {
    precedents_view(records)
}

impl View for ListScan {
    type V = ScanModel;

    open spec fn view(&self) -> ScanModel {
        ScanModel {
            records: records_view(self.records@),
            pending: match self.pending {
                Some(text) => Some(text@),
                None => None,
            },
        }
    }
}

/// The state before the first event: no record, no text.
pub open spec fn scan_start() -> ScanModel {
    ScanModel { records: Seq::empty(), pending: None }
}

/// The transition of the list scan.
///
/// - The start of a record opens a blank record and forgets the text.
/// - Text, escaped or in a CDATA section, replaces the text that came before.
/// - The end of a field puts the text into that field of the last record.
/// - The end of a record forgets the text.
/// - Every other event, a tag of any other name among them, changes nothing.
pub open spec fn step_model(s: ScanModel, event: XmlToken) -> Result<ScanModel, XmlError> {
    match event {
        XmlToken::Start(name) => if is_record_tag(name) {
            Ok(ScanModel { records: s.records.push(blank_precedent()), pending: None })
        } else {
            Ok(s)
        },
        XmlToken::Text(text) => Ok(ScanModel { pending: Some(text), ..s }),
        XmlToken::CData(text) => Ok(ScanModel { pending: Some(text), ..s }),
        XmlToken::End(name) => match field_of(name) {
            Some(field) => if s.records.len() == 0 {
                Err(XmlError::NoRecord)
            } else {
                match s.pending {
                    None => Err(XmlError::NoText),
                    Some(text) => match assign(s.records.last(), field, text) {
                        Ok(p) => Ok(
                            ScanModel { records: s.records.update(s.records.len() - 1, p), ..s },
                        ),
                        Err(e) => Err(e),
                    },
                }
            },
            None => if is_record_tag(name) {
                Ok(ScanModel { pending: None, ..s })
            } else {
                Ok(s)
            },
        },
        XmlToken::Eof => Ok(s),
        XmlToken::Other => Ok(s),
    }
}

/// The records that a run of events yields from state `s`: the events are
/// taken in order up to the end of the document; the first event that the
/// transition rejects ends the scan with its error, and events that stop
/// short of the document's end are malformed.
pub open spec fn run_list(s: ScanModel, events: Seq<XmlToken>) -> Result<
    Seq<PrecedentModel>,
    XmlError,
>
    decreases events.len(),
{
    if events.len() == 0 {
        Err(XmlError::Malformed)
    } else {
        match events[0] {
            XmlToken::Eof => Ok(s.records),
            event => match step_model(s, event) {
                Ok(next) => run_list(next, events.skip(1)),
                Err(e) => Err(e),
            },
        }
    }
}

/// The records of a whole run of events.
pub open spec fn read_list(events: Seq<XmlToken>) -> Result<Seq<PrecedentModel>, XmlError> {
    run_list(scan_start(), events)
}

/// The grounds that a run of events yields when `last` is the latest CDATA
/// content so far: the latest CDATA content before the first end of the
/// grounds tag. Escaped text does not count.
pub open spec fn run_grounds(last: Option<Seq<char>>, events: Seq<XmlToken>) -> Result<
    Seq<char>,
    XmlError,
>
    decreases events.len(),
{
    if events.len() == 0 {
        Err(XmlError::Malformed)
    } else {
        match events[0] {
            XmlToken::Eof => Err(XmlError::NoGrounds),
            XmlToken::CData(text) => run_grounds(Some(text), events.skip(1)),
            XmlToken::End(name) => if is_grounds_tag(name) {
                match last {
                    Some(text) => Ok(text),
                    None => Err(XmlError::NoText),
                }
            } else {
                run_grounds(last, events.skip(1))
            },
            _ => run_grounds(last, events.skip(1)),
        }
    }
}

/// The grounds of a whole run of events.
pub open spec fn read_grounds(events: Seq<XmlToken>) -> Result<Seq<char>, XmlError> {
    run_grounds(None, events)
}

/// Whether the list scan passes over an event: a start tag other than that of
/// a record, an end tag that closes neither a field nor a record, and what is
/// neither tag nor text.
pub open spec fn is_ignored(event: XmlToken) -> bool {
    match event {
        XmlToken::Start(name) => !is_record_tag(name),
        XmlToken::End(name) => field_of(name) is None && !is_record_tag(name),
        XmlToken::Other => true,
        _ => false,
    }
}

/// The events that the list scan does not pass over.
pub open spec fn kept() -> spec_fn(XmlToken) -> bool {
    |event: XmlToken| !is_ignored(event)
}

/// Whether an event carries text, escaped or in a CDATA section.
pub open spec fn is_text(event: XmlToken) -> bool {
    event is Text || event is CData
}

/// An event that the scan passes over leaves the state as it was.
pub proof fn lemma_ignored_changes_nothing(s: ScanModel, event: XmlToken)
    requires
        is_ignored(event),
    ensures
        step_model(s, event) == Ok::<ScanModel, XmlError>(s),
{
}

/// Tags that the scan does not know may stand anywhere: a run of events
/// yields what it yields without them.
pub proof fn lemma_unknown_tags_interleaved(s: ScanModel, events: Seq<XmlToken>)
    ensures
        run_list(s, events) == run_list(s, events.filter(kept())),
    decreases events.len(),
{
    if events.len() == 0 {
        assert(events.filter(kept()).len() == 0) by {
            events.lemma_filter_len(kept());
        }
    } else {
        let first = events[0];
        let rest = events.skip(1);
        assert(events =~= seq![first] + rest);
        rest.lemma_filter_prepend(first, kept());
        if is_ignored(first) {
            assert(events.filter(kept()) =~= rest.filter(kept()));
            lemma_unknown_tags_interleaved(s, rest);
        } else {
            let short = events.filter(kept());
            assert(short =~= seq![first] + rest.filter(kept()));
            assert(short[0] == first);
            assert(short.skip(1) =~= rest.filter(kept()));
            match step_model(s, first) {
                Ok(next) => {
                    lemma_unknown_tags_interleaved(next, rest);
                },
                Err(_) => {},
            }
        }
    }
}

/// Of two texts that follow each other the later one counts: the state after
/// both is the state after the second alone.
pub proof fn lemma_last_text_wins(s: ScanModel, earlier: XmlToken, later: XmlToken)
    requires
        is_text(earlier),
        is_text(later),
    ensures
        step_model(s, earlier) is Ok,
        step_model(step_model(s, earlier)->Ok_0, later) == step_model(s, later),
{
}

/// A step keeps the records in their order: it opens one more record at the
/// end exactly when a record starts, and else changes at most the last one.
pub proof fn lemma_records_keep_their_place(s: ScanModel, event: XmlToken)
    ensures
        match step_model(s, event) {
            Ok(next) => {
                &&& next.records.len() == s.records.len() + (if event matches XmlToken::Start(name)
                    && is_record_tag(name) {
                    1int
                } else {
                    0int
                })
                &&& forall|i: int|
                    0 <= i < s.records.len() - 1 ==> next.records[i] == s.records[i]
                &&& !(event is End) && s.records.len() > 0 ==> next.records[s.records.len() - 1]
                    == s.records.last()
            },
            Err(_) => true,
        },
{
}

/// A record is final once the next one opens: whatever events follow, the
/// records come out in the order in which they were opened, and all but the
/// last of those that a state holds come out as they are.
pub proof fn lemma_run_keeps_earlier_records(s: ScanModel, events: Seq<XmlToken>)
    ensures
        match run_list(s, events) {
            Ok(list) => {
                &&& list.len() >= s.records.len()
                &&& forall|i: int| 0 <= i < s.records.len() - 1 ==> list[i] == s.records[i]
            },
            Err(_) => true,
        },
    decreases events.len(),
{
    if events.len() > 0 && !(events[0] is Eof) {
        lemma_records_keep_their_place(s, events[0]);
        match step_model(s, events[0]) {
            Ok(next) => {
                lemma_run_keeps_earlier_records(next, events.skip(1));
            },
            Err(_) => {},
        }
    }
}

/// The mathematical values of a run of events.
pub open spec fn events_view(events: Seq<XmlEvent>) -> Seq<XmlToken> {
    events.map_values(|e: XmlEvent| e@)
}

/// The mathematical value of a scan's outcome.
pub open spec fn scan_view(res: Result<ListScan, XmlError>) -> Result<ScanModel, XmlError> {
    match res {
        Ok(state) => Ok(state@),
        Err(e) => Err(e),
    }
}

/// The mathematical value of a list's outcome.
pub open spec fn list_view(res: Result<Vec<CourtPrecedent>, XmlError>) -> Result<
    Seq<PrecedentModel>,
    XmlError,
> {
    match res {
        Ok(records) => Ok(records_view(records@)),
        Err(e) => Err(e),
    }
}

/// The mathematical value of a text's outcome.
pub open spec fn text_view(res: Result<String, XmlError>) -> Result<Seq<char>, XmlError> {
    match res {
        Ok(text) => Ok(text@),
        Err(e) => Err(e),
    }
}

/// The field that a tag name labels.
pub fn field_named(name: &str) -> (field: Option<Field>)
    ensures
        field == field_of(name@),
{
    if text_eq(name, "판례일련번호") {
        Some(Field::Serial)
    } else if text_eq(name, "사건명") {
        Some(Field::CaseName)
    } else if text_eq(name, "사건번호") {
        Some(Field::CaseCode)
    } else if text_eq(name, "선고일자") {
        Some(Field::DecisionDate)
    } else if text_eq(name, "법원명") {
        Some(Field::Court)
    } else if text_eq(name, "사건종류명") {
        Some(Field::CaseType)
    } else if text_eq(name, "판결유형") {
        Some(Field::DecisionType)
    } else {
        None
    }
}

/// Puts `text` into `field` of the record.
pub fn assign_field(p: CourtPrecedent, field: Field, text: String) -> (res: Result<
    CourtPrecedent,
    XmlError,
>)
    ensures
        match res {
            Ok(q) => assign(p@, field, text@) == Ok::<PrecedentModel, XmlError>(q@),
            Err(e) => assign(p@, field, text@) == Err::<PrecedentModel, XmlError>(e),
        },
{
    let mut p = p;
    match field {
        Field::Serial => match parse_u32(text.as_str()) {
            Some(id) => {
                p.id = id;
            },
            None => {
                return Err(XmlError::BadSerial);
            },
        },
        Field::CaseName => {
            p.case_name = Some(text);
        },
        Field::CaseCode => {
            p.case_code = Some(text);
        },
        Field::DecisionDate => {
            p.decision_date = Some(text);
        },
        Field::Court => {
            p.court = Some(CourtType::new(text));
        },
        Field::CaseType => {
            p.case_type = Some(text);
        },
        Field::DecisionType => {
            p.decision_type = Some(DecisionType::new(text));
        },
    }
    Ok(p)
}

impl ListScan {
    /// The state before the first event.
    pub fn new() -> (state: ListScan)
        ensures
            state@ == scan_start(),
    {
        let state = ListScan { records: Vec::new(), pending: None };
        assert(state@.records =~= Seq::empty());
        state
    }
}

/// Advances the list scan by one event.
pub fn step(state: ListScan, event: &XmlEvent) -> (res: Result<ListScan, XmlError>)
    ensures
        scan_view(res) == step_model(state@, event@),
{
    let mut state = state;
    match event {
        XmlEvent::Start(name) => {
            if text_eq(name.as_str(), "prec") {
                let ghost before = state.records@;
                state.records.push(CourtPrecedent::new());
                state.pending = None;
                assert(records_view(state.records@) =~= records_view(before).push(
                    blank_precedent(),
                ));
            }
            Ok(state)
        },
        XmlEvent::Text(text) => {
            state.pending = Some(text.clone());
            Ok(state)
        },
        XmlEvent::CData(text) => {
            state.pending = Some(text.clone());
            Ok(state)
        },
        XmlEvent::End(name) => match field_named(name.as_str()) {
            Some(field) => {
                if state.records.len() == 0 {
                    return Err(XmlError::NoRecord);
                }
                let text = match &state.pending {
                    None => {
                        return Err(XmlError::NoText);
                    },
                    Some(text) => text.clone(),
                };
                let ghost before = state.records@;
                let last = state.records.pop().unwrap();
                match assign_field(last, field, text) {
                    Ok(p) => {
                        state.records.push(p);
                        assert(records_view(state.records@) =~= records_view(before).update(
                            before.len() - 1,
                            p@,
                        ));
                        Ok(state)
                    },
                    Err(e) => Err(e),
                }
            },
            None => {
                if text_eq(name.as_str(), "prec") {
                    state.pending = None;
                }
                Ok(state)
            },
        },
        XmlEvent::Eof => Ok(state),
        XmlEvent::Other => Ok(state),
    }
}

/// Reads the list of precedents from a run of events.
pub fn scan_events(events: &Vec<XmlEvent>) -> (res: Result<Vec<CourtPrecedent>, XmlError>)
    ensures
        list_view(res) == read_list(events_view(events@)),
{
    let ghost all = events_view(events@);
    let mut state = ListScan::new();
    let mut i: usize = 0;
    assert(all.skip(0) =~= all);
    while i < events.len()
        invariant
            i <= events.len(),
            all == events_view(events@),
            run_list(state@, all.skip(i as int)) == read_list(all),
        decreases events.len() - i,
    {
        let ghost rest = all.skip(i as int);
        assert(rest[0] == events@[i as int]@);
        assert(rest.skip(1) =~= all.skip(i + 1));
        match &events[i] {
            XmlEvent::Eof => {
                return Ok(state.records);
            },
            event => match step(state, event) {
                Ok(next) => {
                    state = next;
                },
                Err(e) => {
                    return Err(e);
                },
            },
        }
        i = i + 1;
    }
    assert(all.skip(i as int).len() == 0);
    Err(XmlError::Malformed)
}

/// Reads the grounds of a judgment from a run of events.
pub fn find_grounds(events: &Vec<XmlEvent>) -> (res: Result<String, XmlError>)
    ensures
        text_view(res) == read_grounds(events_view(events@)),
{
    let ghost all = events_view(events@);
    let mut last: Option<String> = None;
    let mut i: usize = 0;
    assert(all.skip(0) =~= all);
    while i < events.len()
        invariant
            i <= events.len(),
            all == events_view(events@),
            run_grounds(crate::law_api::opt_text(last), all.skip(i as int)) == read_grounds(all),
        decreases events.len() - i,
    {
        let ghost rest = all.skip(i as int);
        assert(rest[0] == events@[i as int]@);
        assert(rest.skip(1) =~= all.skip(i + 1));
        match &events[i] {
            XmlEvent::Eof => {
                return Err(XmlError::NoGrounds);
            },
            XmlEvent::CData(text) => {
                last = Some(text.clone());
            },
            XmlEvent::End(name) => {
                if text_eq(name.as_str(), "판시사항") {
                    return match last {
                        Some(text) => Ok(text),
                        None => Err(XmlError::NoText),
                    };
                }
            },
            _ => {},
        }
        i = i + 1;
    }
    assert(all.skip(i as int).len() == 0);
    Err(XmlError::Malformed)
}

/// `quick_xml::Reader`, a reader of XML events over a source of bytes. What
/// is inside is not looked at.
#[verifier::external_type_specification]
#[verifier::external_body]
#[verifier::reject_recursive_types(R)]
pub struct ExReader<R>(Reader<R>);

/// `quick_xml::Error`, the reader's error. What is inside is not looked at.
#[verifier::external_type_specification]
#[verifier::external_body]
pub struct ExXmlFault(quick_xml::Error);

/// The events of the document `text` as `quick_xml` reads them, in order,
/// where `trim` says whether white space around character data is dropped.
/// The run ends with [`XmlToken::Eof`] where the whole document could be
/// read, and before the first event that could not be read otherwise.
pub uninterp spec fn xml_tokens(text: Seq<char>, trim: bool) -> Seq<XmlToken>;

/// The events that a reader has yet to give, ending as [`xml_tokens`] does.
pub uninterp spec fn tokens_ahead(reader: Reader<&[u8]>) -> Seq<XmlToken>;

/// `Reader::from_str` with `Reader::trim_text`: a reader at the start of
/// `text`, which has all the events of `text` ahead of it.
#[verifier::external_body]
fn open_reader<'a>(text: &'a str, trim: bool) -> (reader: Reader<&'a [u8]>)
    ensures
        tokens_ahead(reader) == xml_tokens(text@, trim),
{
    let mut reader = Reader::from_str(text);
    reader.trim_text(trim);
    reader
}

/// `Reader::read_event`, with the event brought into an [`XmlEvent`]: tag
/// names as text, character data unescaped (`BytesText::unescape`), CDATA
/// content as it stands. An event is the first of those ahead, and unless it
/// is the end of the document the rest stay ahead. An error means that no
/// event was ahead: the document cannot be read at this place.
#[verifier::external_body]
fn next_event(reader: &mut Reader<&[u8]>) -> (res: Result<XmlEvent, quick_xml::Error>)
    ensures
        match res {
            Ok(event) => {
                &&& tokens_ahead(*old(reader)).len() > 0
                &&& event@ == tokens_ahead(*old(reader))[0]
                &&& !(event is Eof) ==> tokens_ahead(*final(reader)) == tokens_ahead(
                    *old(reader),
                ).skip(1)
            },
            Err(_) => tokens_ahead(*old(reader)).len() == 0,
        },
{
    Ok(
        match reader.read_event()? {
            Event::Start(e) => XmlEvent::Start(
                String::from_utf8_lossy(e.name().as_ref()).into_owned(),
            ),
            Event::End(e) => XmlEvent::End(String::from_utf8_lossy(e.name().as_ref()).into_owned()),
            Event::Text(e) => XmlEvent::Text(e.unescape()?.into_owned()),
            Event::CData(e) => XmlEvent::CData(e.escape()?.unescape()?.into_owned()),
            Event::Eof => XmlEvent::Eof,
            _ => XmlEvent::Other,
        },
    )
}

/// Reads the list of precedents from the text of a list document.
pub fn parse_court_precedent_list(xml_txt: &String) -> (res: Result<
    Vec<CourtPrecedent>,
    XmlError,
>)
    ensures
        list_view(res) == read_list(xml_tokens(xml_txt@, true)),
{
    let mut reader = open_reader(xml_txt.as_str(), true);
    let mut state = ListScan::new();
    loop
        invariant
            run_list(state@, tokens_ahead(reader)) == read_list(xml_tokens(xml_txt@, true)),
        decreases tokens_ahead(reader).len(),
    {
        match next_event(&mut reader) {
            Err(_) => {
                return Err(XmlError::Malformed);
            },
            Ok(XmlEvent::Eof) => {
                return Ok(state.records);
            },
            Ok(event) => match step(state, &event) {
                Ok(next) => {
                    state = next;
                },
                Err(e) => {
                    return Err(e);
                },
            },
        }
    }
}

/// Reads the grounds of the judgment from the text of a precedent document.
pub fn parse_court_description(xml_txt: &String) -> (res: Result<String, XmlError>)
    ensures
        text_view(res) == read_grounds(xml_tokens(xml_txt@, true)),
{
    let mut reader = open_reader(xml_txt.as_str(), true);
    let mut last: Option<String> = None;
    loop
        invariant
            run_grounds(crate::law_api::opt_text(last), tokens_ahead(reader)) == read_grounds(
                xml_tokens(xml_txt@, true),
            ),
        decreases tokens_ahead(reader).len(),
    {
        match next_event(&mut reader) {
            Err(_) => {
                return Err(XmlError::Malformed);
            },
            Ok(XmlEvent::Eof) => {
                return Err(XmlError::NoGrounds);
            },
            Ok(XmlEvent::CData(text)) => {
                last = Some(text);
            },
            Ok(XmlEvent::End(name)) => {
                if text_eq(name.as_str(), "판시사항") {
                    return match last {
                        Some(text) => Ok(text),
                        None => Err(XmlError::NoText),
                    };
                }
            },
            Ok(_) => {},
        }
    }
}

} // verus!
