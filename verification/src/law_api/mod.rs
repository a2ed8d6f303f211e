//! Precedents as the XML provider lists them: the court, the kind of
//! decision, the record itself and its citation.

pub mod request;

use crate::citation::{cite, connector, court_name, court_of, kind_label, kind_of, CourtModel, Kind};
use crate::pubdate::{
    afternoon_in_seoul, day_of, publication_time, read_date, stamp_view, CalendarDate,
};
use crate::rss::{answers_of, items_view, ItemModel, Rss, RssItem};
use crate::text::{decimal, decimal_text, text_eq};
use vstd::prelude::*;
use vstd::string::*;

verus! {

/// The court that gave a decision.
#[derive(Debug)]
pub enum CourtType {
    /// The Supreme Court.
    SupremeCourt,
    /// Any other court, by its name.
    Court(String),
}

impl View for CourtType {
    type V = CourtModel;

    open spec fn view(&self) -> CourtModel {
        match self {
            CourtType::SupremeCourt => CourtModel::SupremeCourt,
            CourtType::Court(name) => CourtModel::Court(name@),
        }
    }
}

impl CourtType {
    /// Reads a court from its upstream name. Never fails.
    pub fn new(court_type: String) -> (court: CourtType)
        ensures
            court@ == court_of(court_type@),
    {
        if text_eq(court_type.as_str(), "대법원") {
            CourtType::SupremeCourt
        } else {
            CourtType::Court(court_type)
        }
    }

    /// The name under which the court is cited.
    pub fn name(&self) -> (text: String)
        ensures
            text@ == court_name(self@),
    {
        match self {
            CourtType::SupremeCourt => String::from_str("대법원"),
            CourtType::Court(name) => name.clone(),
        }
    }
}

/// The procedural form of a ruling.
#[derive(Clone, Copy, Debug)]
pub enum DecisionType {
    /// Judgment of the full bench.
    EnBank,
    /// Decision of the full bench.
    EnBankDecision,
    /// Judgment.
    Judgement,
    /// Decision.
    Decision,
    /// Order.
    Order,
    /// Absent upstream, or a form that is not known.
    Unknown,
}

impl View for DecisionType {
    type V = Kind;

    open spec fn view(&self) -> Kind {
        match self {
            DecisionType::EnBank => Kind::EnBank,
            DecisionType::EnBankDecision => Kind::EnBankDecision,
            DecisionType::Judgement => Kind::Judgement,
            DecisionType::Decision => Kind::Decision,
            DecisionType::Order => Kind::Order,
            DecisionType::Unknown => Kind::Unknown,
        }
    }
}

impl DecisionType {
    /// Reads the form of a ruling from its upstream label. Never fails.
    pub fn new(decision_type: String) -> (kind: DecisionType)
        ensures
            kind@ == kind_of(decision_type@),
    {
        let label = decision_type.as_str();
        if text_eq(label, "전원합의체 판결") {
            DecisionType::EnBank
        } else if text_eq(label, "전원합의체 결정") {
            DecisionType::EnBankDecision
        } else if text_eq(label, "판결") {
            DecisionType::Judgement
        } else if text_eq(label, "결정") {
            DecisionType::Decision
        } else if text_eq(label, "명령") {
            DecisionType::Order
        } else {
            DecisionType::Unknown
        }
    }

    /// The label of this form of ruling in a citation.
    pub fn label(&self) -> (text: &'static str)
        ensures
            text@ == kind_label(self@),
    {
        match self {
            DecisionType::EnBank => "전원합의체 판결",
            DecisionType::EnBankDecision => "전원합의체 결정",
            DecisionType::Judgement => "판결",
            DecisionType::Decision => "결정",
            DecisionType::Order => "명령",
            DecisionType::Unknown => {
                proof {
                    reveal_strlit("");
                }
                ""
            },
        }
    }

    /// The word that joins date and case number in a citation.
    pub fn connector(&self) -> (text: &'static str)
        ensures
            text@ == connector(self@),
    {
        match self {
            DecisionType::EnBank | DecisionType::Judgement => "선고",
            _ => "자",
        }
    }
}

/// The text of an optional field, none where the field is absent.
pub open spec fn opt_text(field: Option<String>) -> Option<Seq<char>> {
    match field {
        Some(text) => Some(text@),
        None => None,
    }
}

/// The text of an optional field, empty where the field is absent.
pub open spec fn text_or_empty(field: Option<Seq<char>>) -> Seq<char> {
    match field {
        Some(text) => text,
        None => Seq::<char>::empty(),
    }
}

/// A precedent as the list of the XML provider describes it. Every field but
/// the serial number is filled only when the list names it.
#[derive(Debug)]
pub struct CourtPrecedent {
    /// Serial number of the precedent.
    pub id: u32,
    /// Name of the case.
    pub case_name: Option<String>,
    /// Case number, such as `2024다12345`.
    pub case_code: Option<String>,
    /// Date of the decision, as `YYYY.MM.DD`.
    pub decision_date: Option<String>,
    /// Court.
    pub court: Option<CourtType>,
    /// Form of the ruling.
    pub decision_type: Option<DecisionType>,
    /// Kind of case, as upstream names it.
    pub case_type: Option<String>,
    /// Grounds of the judgment.
    pub description: Option<String>,
}

/// Mathematical value of a [`CourtPrecedent`].
pub ghost struct PrecedentModel {
    pub id: u32,
    pub case_name: Option<Seq<char>>,
    pub case_code: Option<Seq<char>>,
    pub decision_date: Option<Seq<char>>,
    pub court: Option<CourtModel>,
    pub decision_type: Option<Kind>,
    pub case_type: Option<Seq<char>>,
    pub description: Option<Seq<char>>,
}

impl View for CourtPrecedent {
    type V = PrecedentModel;

    open spec fn view(&self) -> PrecedentModel {
        PrecedentModel {
            id: self.id,
            case_name: opt_text(self.case_name),
            case_code: opt_text(self.case_code),
            decision_date: opt_text(self.decision_date),
            court: match self.court {
                Some(court) => Some(court@),
                None => None,
            },
            decision_type: match self.decision_type {
                Some(kind) => Some(kind@),
                None => None,
            },
            case_type: opt_text(self.case_type),
            description: opt_text(self.description),
        }
    }
}

/// The record that a list entry starts from: serial number 0, nothing else.
pub open spec fn blank_precedent() -> PrecedentModel {
    PrecedentModel {
        id: 0,
        case_name: None,
        case_code: None,
        decision_date: None,
        court: None,
        decision_type: None,
        case_type: None,
        description: None,
    }
}

/// The day of a record's decision, none where the list named no date or one
/// that is no day of the calendar.
pub open spec fn decision_day_of(p: PrecedentModel) -> Option<CalendarDate> {
    match p.decision_date {
        Some(text) => day_of(text, "%Y.%m.%d"@),
        None => None,
    }
}

/// The form of ruling of a record, unknown where the list named none.
pub open spec fn kind_or_unknown(p: PrecedentModel) -> Kind {
    match p.decision_type {
        Some(kind) => kind,
        None => Kind::Unknown,
    }
}

/// The name of a record's court, empty where the list named none.
pub open spec fn court_text(p: PrecedentModel) -> Seq<char> {
    match p.court {
        Some(court) => court_name(court),
        None => Seq::<char>::empty(),
    }
}

/// The citation of a precedent, an absent field standing as empty text and an
/// absent form of ruling as unknown.
pub open spec fn citation(p: PrecedentModel) -> Seq<char> {
    cite(
        court_text(p),
        text_or_empty(p.decision_date),
        kind_or_unknown(p),
        text_or_empty(p.case_code),
    )
}

impl CourtPrecedent {
    /// A record with serial number 0 and no other field.
    pub fn new() -> (p: CourtPrecedent)
        ensures
            p@ == blank_precedent(),
    {
        CourtPrecedent {
            id: 0,
            case_name: None,
            case_code: None,
            decision_date: None,
            court: None,
            decision_type: None,
            case_type: None,
            description: None,
        }
    }

    /// The form of ruling, unknown where the list named none.
    pub fn kind(&self) -> (kind: DecisionType)
        ensures
            kind@ == kind_or_unknown(self@),
    {
        match self.decision_type {
            Some(kind) => kind,
            None => DecisionType::Unknown,
        }
    }

    /// The name of the court, empty where the list named none.
    pub fn court_name(&self) -> (text: String)
        ensures
            text@ == court_text(self@),
    {
        match &self.court {
            Some(court) => court.name(),
            None => String::new(),
        }
    }

    /// The day of the decision, read from `YYYY.MM.DD`; none where the list
    /// named no date.
    pub fn decision_day(&self) -> (date: Option<CalendarDate>)
        ensures
            date == decision_day_of(self@),
    {
        match &self.decision_date {
            Some(text) => read_date(text.as_str(), "%Y.%m.%d"),
            None => None,
        }
    }

    /// The publication time of the precedent's feed item: the afternoon of
    /// the day of the decision.
    pub fn get_pubdate(&self) -> (text: Option<String>)
        ensures
            stamp_view(text) == afternoon_in_seoul(decision_day_of(self@)),
    {
        publication_time(self.decision_day())
    }

    /// The six texts of the precedent's feed item.
    pub fn feed_item(&self) -> (item: RssItem)
        ensures
            item@ == item_model(self@),
    {
        RssItem {
            title: self.get_title(),
            link: self.get_link(),
            description: self.get_description(),
            guid: self.get_guid(),
            author: self.get_author(),
            category: self.get_category(),
        }
    }

    /// The full citation of the precedent.
    pub fn full_code(&self) -> (text: String)
        ensures
            text@ == citation(self@),
    {
        let kind = self.kind();
        let mut text = self.court_name();
        text.append(" ");
        text.append(field_text(&self.decision_date));
        text.append(" ");
        text.append(kind.connector());
        text.append(" ");
        text.append(field_text(&self.case_code));
        text.append(" ");
        text.append(kind.label());
        text
    }
}

/// The citation of a precedent is fixed by its court, the date of the
/// decision, the form of the ruling and the case number: precedents that
/// agree in these four are cited alike, whatever else they hold.
pub proof fn lemma_citation_reads_four_fields(p: PrecedentModel, q: PrecedentModel)
    requires
        p.court == q.court,
        p.decision_date == q.decision_date,
        p.decision_type == q.decision_type,
        p.case_code == q.case_code,
    ensures
        citation(p) == citation(q),
{
}

/// The title of a precedent's feed item: the name of the case, then the
/// citation in brackets.
pub open spec fn item_title(p: PrecedentModel) -> Seq<char> {
    text_or_empty(p.case_name) + " ("@ + citation(p) + ")"@
}

/// The page on which the precedent can be read.
pub open spec fn item_link(p: PrecedentModel) -> Seq<char> {
    "https://casenote.kr/"@ + court_text(p) + "/"@ + text_or_empty(p.case_code)
}

/// The six texts of a precedent's feed item. An absent field stands as empty
/// text.
pub open spec fn item_model(p: PrecedentModel) -> ItemModel {
    ItemModel {
        title: item_title(p),
        link: item_link(p),
        description: text_or_empty(p.description),
        guid: decimal(p.id as nat),
        author: court_text(p),
        category: text_or_empty(p.case_type),
    }
}

impl Rss for CourtPrecedent {
    fn get_title(&self) -> (text: String)
        ensures
            text@ == item_title(self@),
    {
        let mut text = String::from_str(field_text(&self.case_name));
        text.append(" (");
        text.append(self.full_code().as_str());
        text.append(")");
        text
    }

    fn get_link(&self) -> (text: String)
        ensures
            text@ == item_link(self@),
    {
        let mut text = String::from_str("https://casenote.kr/");
        text.append(self.court_name().as_str());
        text.append("/");
        text.append(field_text(&self.case_code));
        text
    }

    fn get_description(&self) -> (text: String)
        ensures
            text@ == text_or_empty(self@.description),
    {
        String::from_str(field_text(&self.description))
    }

    fn get_guid(&self) -> (text: String)
        ensures
            text@ == decimal(self.id as nat),
    {
        decimal_text(self.id)
    }

    fn get_author(&self) -> (text: String)
        ensures
            text@ == court_text(self@),
    {
        self.court_name()
    }

    fn get_category(&self) -> (text: String)
        ensures
            text@ == text_or_empty(self@.case_type),
    {
        String::from_str(field_text(&self.case_type))
    }
}

/// The mathematical values of a run of precedents.
pub open spec fn precedents_view(list: Seq<CourtPrecedent>) -> Seq<PrecedentModel> {
    list.map_values(|p: CourtPrecedent| p@)
}

/// The feed items of a run of precedents, in their order.
pub open spec fn item_models(list: Seq<PrecedentModel>) -> Seq<ItemModel> {
    list.map_values(|p: PrecedentModel| item_model(p))
}

/// Asked for its six texts, a precedent answers with its feed item and
/// with nothing else: texts that a run of precedents answered are the feed
/// items of those precedents, in their order.
pub proof fn lemma_answers_are_feed_items(list: Seq<CourtPrecedent>, texts: Seq<RssItem>)
    requires
        texts.len() == list.len(),
        forall|i: int| 0 <= i < list.len() ==> answers_of(&list[i], #[trigger] texts[i]),
    ensures
        items_view(texts) == item_models(precedents_view(list)),
{
    assert forall|i: int| 0 <= i < list.len() implies items_view(texts)[i] == item_models(
        precedents_view(list),
    )[i] by {
        assert(answers_of(&list[i], texts[i]));
    }
    assert(items_view(texts) =~= item_models(precedents_view(list)));
}

/// The feed items of `list`, one for each precedent and in the same order.
pub fn feed_items(list: &Vec<CourtPrecedent>) -> (items: Vec<RssItem>)
    ensures
        items_view(items@) == item_models(precedents_view(list@)),
{
    let mut items: Vec<RssItem> = Vec::new();
    let mut i: usize = 0;
    while i < list.len()
        invariant
            i <= list.len(),
            items.len() == i,
            forall|k: int| 0 <= k < i ==> (#[trigger] items@[k])@ == item_model(list@[k]@),
        decreases list.len() - i,
    {
        items.push(list[i].feed_item());
        i = i + 1;
    }
    assert(items_view(items@) =~= item_models(precedents_view(list@)));
    items
}

/// The text of an optional field, empty where the field is absent.
pub fn field_text(field: &Option<String>) -> (text: &str)
    ensures
        text@ == text_or_empty(opt_text(*field)),
{
    match field {
        Some(text) => text.as_str(),
        None => {
            proof {
                reveal_strlit("");
            }
            ""
        },
    }
}

} // verus!
