//! Precedents as the structured-JSON provider publishes them: an overview
//! from the list, a detail record per precedent, and the two merged.

pub mod scourt;

use crate::citation::{cite, connector, court_name, court_of, kind_label, kind_of, CourtModel, Kind};
use crate::pubdate::{
    afternoon_in_seoul, day_of, publication_time, read_date, stamp_view, CalendarDate,
};
use crate::rss::{answers_of, items_view, ItemModel, Rss, RssItem};
use crate::text::{decimal, decimal_text, joined, text_eq};
use vstd::prelude::*;
use vstd::string::*;

verus! {

/// The court that gave a decision.
#[derive(Debug)]
pub enum CourtType {
    /// The Supreme Court.
    SupremeCourt,
    /// Any other court, by its name.
    Court(String),
}

impl View for CourtType {
    type V = CourtModel;

    open spec fn view(&self) -> CourtModel {
        match self {
            CourtType::SupremeCourt => CourtModel::SupremeCourt,
            CourtType::Court(name) => CourtModel::Court(name@),
        }
    }
}

impl CourtType {
    /// Reads a court from its upstream name. Never fails.
    pub fn new(court_type: String) -> (court: CourtType)
        ensures
            court@ == court_of(court_type@),
    {
        if text_eq(court_type.as_str(), "대법원") {
            CourtType::SupremeCourt
        } else {
            CourtType::Court(court_type)
        }
    }

    /// The name under which the court is cited.
    pub fn name(&self) -> (text: String)
        ensures
            text@ == court_name(self@),
    {
        match self {
            CourtType::SupremeCourt => String::from_str("대법원"),
            CourtType::Court(name) => name.clone(),
        }
    }
}

/// The branch of law that a case belongs to.
#[derive(Clone, Copy, Debug)]
pub enum CaseType {
    Civil,
    Criminal,
    Administration,
    Tax,
    Family,
    Patent,
    /// A branch that is not known.
    Unknown,
}

/// The branch of law that an upstream category stands for; a category that
/// is not known gives [`CaseType::Unknown`].
pub open spec fn case_type_of(text: Seq<char>) -> CaseType {
    if text == "민사"@ {
        CaseType::Civil
    } else if text == "형사"@ {
        CaseType::Criminal
    } else if text == "일반행정"@ {
        CaseType::Administration
    } else if text == "조세"@ {
        CaseType::Tax
    } else if text == "가사"@ {
        CaseType::Family
    } else if text == "특허"@ {
        CaseType::Patent
    } else {
        CaseType::Unknown
    }
}

/// The name of a branch of law; empty for an unknown branch.
pub open spec fn case_type_label(case_type: CaseType) -> Seq<char> {
    match case_type {
        CaseType::Civil => "민사"@,
        CaseType::Criminal => "형사"@,
        CaseType::Administration => "일반행정"@,
        CaseType::Tax => "조세"@,
        CaseType::Family => "가사"@,
        CaseType::Patent => "특허"@,
        CaseType::Unknown => Seq::<char>::empty(),
    }
}

/// The mapping from upstream categories to branches of law is total: each of
/// the six categories is read as its own branch, and every other text as
/// unknown.
pub proof fn lemma_case_type_mapping(text: Seq<char>)
    ensures
        forall|kind: CaseType|
            kind != CaseType::Unknown ==> case_type_of(#[trigger] case_type_label(kind)) == kind,
        (forall|kind: CaseType| kind != CaseType::Unknown ==> text != #[trigger] case_type_label(kind))
            ==> case_type_of(text) == CaseType::Unknown,
        case_type_of(text) != CaseType::Unknown ==> case_type_label(case_type_of(text)) == text,
{
    reveal_strlit("민사");
    reveal_strlit("형사");
    reveal_strlit("일반행정");
    reveal_strlit("조세");
    reveal_strlit("가사");
    reveal_strlit("특허");
    assert("민사"@[0] == '민' && "민사"@.len() == 2);
    assert("형사"@[0] == '형' && "형사"@.len() == 2);
    assert("일반행정"@[0] == '일' && "일반행정"@.len() == 4);
    assert("조세"@[0] == '조' && "조세"@.len() == 2);
    assert("가사"@[0] == '가' && "가사"@.len() == 2);
    assert("특허"@[0] == '특' && "특허"@.len() == 2);
    assert forall|kind: CaseType| kind != CaseType::Unknown implies case_type_of(
        #[trigger] case_type_label(kind),
    ) == kind by {
        assert(case_type_label(kind).len() > 0);
        assert(case_type_label(kind)[0] != '민' || kind == CaseType::Civil);
        assert(case_type_label(kind)[0] != '형' || kind == CaseType::Criminal);
        assert(case_type_label(kind)[0] != '일' || kind == CaseType::Administration);
        assert(case_type_label(kind)[0] != '조' || kind == CaseType::Tax);
        assert(case_type_label(kind)[0] != '가' || kind == CaseType::Family);
    }
    if forall|kind: CaseType| kind != CaseType::Unknown ==> text != #[trigger] case_type_label(kind) {
        assert(text != case_type_label(CaseType::Civil));
        assert(text != case_type_label(CaseType::Criminal));
        assert(text != case_type_label(CaseType::Administration));
        assert(text != case_type_label(CaseType::Tax));
        assert(text != case_type_label(CaseType::Family));
        assert(text != case_type_label(CaseType::Patent));
    }
}

impl CaseType {
    /// Reads the branch of law from its upstream category. Never fails.
    pub fn new(case_type: String) -> (kind: CaseType)
        ensures
            kind == case_type_of(case_type@),
    {
        let label = case_type.as_str();
        if text_eq(label, "민사") {
            CaseType::Civil
        } else if text_eq(label, "형사") {
            CaseType::Criminal
        } else if text_eq(label, "일반행정") {
            CaseType::Administration
        } else if text_eq(label, "조세") {
            CaseType::Tax
        } else if text_eq(label, "가사") {
            CaseType::Family
        } else if text_eq(label, "특허") {
            CaseType::Patent
        } else {
            CaseType::Unknown
        }
    }

    /// The name of the branch of law.
    pub fn label(&self) -> (text: &'static str)
        ensures
            text@ == case_type_label(*self),
    {
        match self {
            CaseType::Civil => "민사",
            CaseType::Criminal => "형사",
            CaseType::Administration => "일반행정",
            CaseType::Tax => "조세",
            CaseType::Family => "가사",
            CaseType::Patent => "특허",
            CaseType::Unknown => {
                proof {
                    reveal_strlit("");
                }
                ""
            },
        }
    }
}

impl Default for CaseType {
    fn default() -> (kind: CaseType)
        ensures
            kind == CaseType::Unknown,
    {
        CaseType::Unknown
    }
}

/// The procedural form of a ruling.
#[derive(Clone, Copy, Debug)]
pub enum DecisionType {
    /// Judgment of the full bench.
    Enbank,
    /// Decision of the full bench.
    EnbankDecision,
    /// Judgment.
    Judgement,
    /// Decision.
    Decision,
    /// Order.
    Order,
    /// Absent upstream, or a form that is not known.
    Unknown,
}

impl View for DecisionType {
    type V = Kind;

    open spec fn view(&self) -> Kind {
        match self {
            DecisionType::Enbank => Kind::EnBank,
            DecisionType::EnbankDecision => Kind::EnBankDecision,
            DecisionType::Judgement => Kind::Judgement,
            DecisionType::Decision => Kind::Decision,
            DecisionType::Order => Kind::Order,
            DecisionType::Unknown => Kind::Unknown,
        }
    }
}

impl DecisionType {
    /// Reads the form of a ruling from its upstream label. Never fails.
    pub fn new(decision_type: String) -> (kind: DecisionType)
        ensures
            kind@ == kind_of(decision_type@),
    {
        let label = decision_type.as_str();
        if text_eq(label, "전원합의체 판결") {
            DecisionType::Enbank
        } else if text_eq(label, "전원합의체 결정") {
            DecisionType::EnbankDecision
        } else if text_eq(label, "판결") {
            DecisionType::Judgement
        } else if text_eq(label, "결정") {
            DecisionType::Decision
        } else if text_eq(label, "명령") {
            DecisionType::Order
        } else {
            DecisionType::Unknown
        }
    }

    /// The label of this form of ruling in a citation.
    pub fn label(&self) -> (text: &'static str)
        ensures
            text@ == kind_label(self@),
    {
        match self {
            DecisionType::Enbank => "전원합의체 판결",
            DecisionType::EnbankDecision => "전원합의체 결정",
            DecisionType::Judgement => "판결",
            DecisionType::Decision => "결정",
            DecisionType::Order => "명령",
            DecisionType::Unknown => {
                proof {
                    reveal_strlit("");
                }
                ""
            },
        }
    }

    /// The word that joins date and case number in a citation.
    pub fn connector(&self) -> (text: &'static str)
        ensures
            text@ == connector(self@),
    {
        match self {
            DecisionType::Enbank | DecisionType::Judgement => "선고",
            _ => "자",
        }
    }
}

impl Default for DecisionType {
    fn default() -> (kind: DecisionType)
        ensures
            kind@ == Kind::Unknown,
    {
        DecisionType::Unknown
    }
}

/// A judge who took part in a decision.
#[derive(Debug)]
pub struct Judge {
    pub role: String,
    pub name: String,
    pub position: String,
}

/// Mathematical value of a [`Judge`].
pub ghost struct JudgeModel {
    pub role: Seq<char>,
    pub name: Seq<char>,
    pub position: Seq<char>,
}

impl View for Judge {
    type V = JudgeModel;

    open spec fn view(&self) -> JudgeModel {
        JudgeModel { role: self.role@, name: self.name@, position: self.position@ }
    }
}

/// The mathematical values of a bench of judges.
pub open spec fn judges_view(judges: Seq<Judge>) -> Seq<JudgeModel> {
    judges.map_values(|j: Judge| j@)
}

/// The names of a bench of judges, in order.
pub open spec fn judge_names(judges: Seq<JudgeModel>) -> Seq<Seq<char>> {
    judges.map_values(|j: JudgeModel| j.name)
}

/// What the list says of a precedent.
#[derive(Debug)]
pub struct CourtPrecedentOverview {
    /// Serial number.
    pub id: u32,
    /// Name of the case.
    pub title: String,
    /// Case number.
    pub case_id: String,
    /// Court.
    pub court_type: CourtType,
    /// Branch of law.
    pub case_type: CaseType,
    /// Date of the decision.
    pub decision_date: String,
    /// The detail resource of the precedent, where the list names one.
    pub detail_file: Option<String>,
}

/// Mathematical value of a [`CourtPrecedentOverview`].
pub ghost struct OverviewModel {
    pub id: u32,
    pub title: Seq<char>,
    pub case_id: Seq<char>,
    pub court_type: CourtModel,
    pub case_type: CaseType,
    pub decision_date: Seq<char>,
    pub detail_file: Option<Seq<char>>,
}

impl View for CourtPrecedentOverview {
    type V = OverviewModel;

    open spec fn view(&self) -> OverviewModel {
        OverviewModel {
            id: self.id,
            title: self.title@,
            case_id: self.case_id@,
            court_type: self.court_type@,
            case_type: self.case_type,
            decision_date: self.decision_date@,
            detail_file: match self.detail_file {
                Some(name) => Some(name@),
                None => None,
            },
        }
    }
}

/// What the detail resource says of a precedent.
#[derive(Debug)]
pub struct CourtPrecedentDetail {
    /// Date of publication in the gazette.
    pub pub_date: String,
    /// Holdings.
    pub judge_abstract: String,
    /// Summary of the judgment.
    pub judge_note: String,
    /// Form of the ruling.
    pub decision_type: DecisionType,
    /// The bench.
    pub judges: Vec<Judge>,
}

/// Mathematical value of a [`CourtPrecedentDetail`].
pub ghost struct DetailModel {
    pub pub_date: Seq<char>,
    pub judge_abstract: Seq<char>,
    pub judge_note: Seq<char>,
    pub decision_type: Kind,
    pub judges: Seq<JudgeModel>,
}

impl View for CourtPrecedentDetail {
    type V = DetailModel;

    open spec fn view(&self) -> DetailModel {
        DetailModel {
            pub_date: self.pub_date@,
            judge_abstract: self.judge_abstract@,
            judge_note: self.judge_note@,
            decision_type: self.decision_type@,
            judges: judges_view(self.judges@),
        }
    }
}

/// The detail of a precedent that names no detail resource: empty texts, an
/// unknown form of ruling, no judges.
pub open spec fn no_detail() -> DetailModel {
    DetailModel {
        pub_date: Seq::empty(),
        judge_abstract: Seq::empty(),
        judge_note: Seq::empty(),
        decision_type: Kind::Unknown,
        judges: Seq::empty(),
    }
}

impl Default for CourtPrecedentDetail {
    fn default() -> (detail: CourtPrecedentDetail)
        ensures
            detail@ == no_detail(),
    {
        let detail = CourtPrecedentDetail {
            pub_date: String::new(),
            judge_abstract: String::new(),
            judge_note: String::new(),
            decision_type: DecisionType::Unknown,
            judges: Vec::new(),
        };
        assert(detail@.judges =~= Seq::empty());
        detail
    }
}

/// A precedent: overview and detail in one record.
#[derive(Debug)]
pub struct CourtPrecedent {
    /// Serial number.
    pub id: u32,
    /// Name of the case.
    pub title: String,
    /// Case number, such as `2024다12345`.
    pub case_id: String,
    /// Court.
    pub court_type: CourtType,
    /// Branch of law.
    pub case_type: CaseType,
    /// Date of the decision.
    pub decision_date: String,
    /// Date of publication in the gazette.
    pub pub_date: String,
    /// Holdings.
    pub judge_abstract: String,
    /// Summary of the judgment.
    pub judge_note: String,
    /// Form of the ruling.
    pub decision_type: DecisionType,
    /// The bench.
    pub judges: Vec<Judge>,
}

/// Mathematical value of a [`CourtPrecedent`].
pub ghost struct PrecedentModel {
    pub id: u32,
    pub title: Seq<char>,
    pub case_id: Seq<char>,
    pub court_type: CourtModel,
    pub case_type: CaseType,
    pub decision_date: Seq<char>,
    pub pub_date: Seq<char>,
    pub judge_abstract: Seq<char>,
    pub judge_note: Seq<char>,
    pub decision_type: Kind,
    pub judges: Seq<JudgeModel>,
}

impl View for CourtPrecedent {
    type V = PrecedentModel;

    open spec fn view(&self) -> PrecedentModel {
        PrecedentModel {
            id: self.id,
            title: self.title@,
            case_id: self.case_id@,
            court_type: self.court_type@,
            case_type: self.case_type,
            decision_date: self.decision_date@,
            pub_date: self.pub_date@,
            judge_abstract: self.judge_abstract@,
            judge_note: self.judge_note@,
            decision_type: self.decision_type@,
            judges: judges_view(self.judges@),
        }
    }
}

/// The precedent that an overview and a detail make together.
pub open spec fn merged(overview: OverviewModel, detail: DetailModel) -> PrecedentModel {
    PrecedentModel {
        id: overview.id,
        title: overview.title,
        case_id: overview.case_id,
        court_type: overview.court_type,
        case_type: overview.case_type,
        decision_date: overview.decision_date,
        pub_date: detail.pub_date,
        judge_abstract: detail.judge_abstract,
        judge_note: detail.judge_note,
        decision_type: detail.decision_type,
        judges: detail.judges,
    }
}

/// The citation of a precedent.
pub open spec fn citation(p: PrecedentModel) -> Seq<char> {
    cite(court_name(p.court_type), p.decision_date, p.decision_type, p.case_id)
}

/// The citation of a precedent is fixed by its court, the date of the
/// decision, the form of the ruling and the case number: precedents that
/// agree in these four are cited alike, whatever else they hold.
pub proof fn lemma_citation_reads_four_fields(p: PrecedentModel, q: PrecedentModel)
    requires
        p.court_type == q.court_type,
        p.decision_date == q.decision_date,
        p.decision_type == q.decision_type,
        p.case_id == q.case_id,
    ensures
        citation(p) == citation(q),
{
}

/// The title of a precedent's feed item: the name of the case, then the
/// citation in brackets.
pub open spec fn item_title(p: PrecedentModel) -> Seq<char> {
    p.title + " ("@ + citation(p) + ")"@
}

/// The page of a precedent in the court library.
pub open spec fn item_link(p: PrecedentModel) -> Seq<char> {
    "https://library.scourt.go.kr/search/judg/judgDetail?seqNo="@ + decimal(p.id as nat)
        + "&kindCode="@ + (if p.court_type is SupremeCourt {
        "2"@
    } else {
        "1"@
    })
}

/// The author of a precedent's feed item: the court, then the names of the
/// judges in brackets.
pub open spec fn item_author(p: PrecedentModel) -> Seq<char> {
    court_name(p.court_type) + " ("@ + joined(judge_names(p.judges), ", "@) + ")"@
}

/// The body of a precedent's feed item: holdings and summary, each under its
/// heading.
pub open spec fn item_description(p: PrecedentModel) -> Seq<char> {
    "<h2>판시사항</h2><p>"@ + p.judge_abstract + "</p><h2>판결요지</h2><p>"@ + p.judge_note
        + "</p>"@
}

impl CourtPrecedent {
    /// Merges what the list and the detail resource say of one precedent.
    pub fn new(overview: CourtPrecedentOverview, detail: CourtPrecedentDetail) -> (p: Self)
        ensures
            p@ == merged(overview@, detail@),
    {
        Self {
            id: overview.id,
            title: overview.title,
            case_id: overview.case_id,
            court_type: overview.court_type,
            case_type: overview.case_type,
            decision_date: overview.decision_date,
            pub_date: detail.pub_date,
            judge_abstract: detail.judge_abstract,
            judge_note: detail.judge_note,
            decision_type: detail.decision_type,
            judges: detail.judges,
        }
    }

    /// The full citation of the precedent.
    pub fn full_case_id(&self) -> (text: String)
        ensures
            text@ == citation(self@),
    {
        let mut text = self.court_type.name();
        text.append(" ");
        text.append(self.decision_date.as_str());
        text.append(" ");
        text.append(self.decision_type.connector());
        text.append(" ");
        text.append(self.case_id.as_str());
        text.append(" ");
        text.append(self.decision_type.label());
        text
    }

    /// The day of the decision, read from `YYYY.MM.DD`.
    pub fn decision_day(&self) -> (date: Option<CalendarDate>)
        ensures
            date == day_of(self.decision_date@, "%Y.%m.%d"@),
    {
        read_date(self.decision_date.as_str(), "%Y.%m.%d")
    }

    /// The day of publication in the gazette, read from `YYYY.MM.DD.`.
    pub fn publication_day(&self) -> (date: Option<CalendarDate>)
        ensures
            date == day_of(self.pub_date@, "%Y.%m.%d."@),
    {
        read_date(self.pub_date.as_str(), "%Y.%m.%d.")
    }

    /// The publication time of the precedent's feed item: the afternoon of
    /// the day of its publication in the gazette.
    pub fn get_pubdate(&self) -> (text: Option<String>)
        ensures
            stamp_view(text) == afternoon_in_seoul(day_of(self.pub_date@, "%Y.%m.%d."@)),
    {
        publication_time(self.publication_day())
    }

    /// The six texts of the precedent's feed item.
    pub fn feed_item(&self) -> (item: RssItem)
        ensures
            item@ == item_model(self@),
    {
        RssItem {
            title: self.get_title(),
            link: self.get_link(),
            description: self.get_description(),
            guid: self.get_guid(),
            author: self.get_author(),
            category: self.get_category(),
        }
    }

    /// The names of the judges, parted by commas.
    pub fn judge_list(&self) -> (text: String)
        ensures
            text@ == joined(judge_names(self@.judges), ", "@),
    {
        let ghost names = judge_names(self@.judges);
        let mut text = String::new();
        let mut i: usize = 0;
        assert(names.take(0) =~= Seq::<Seq<char>>::empty());
        while i < self.judges.len()
            invariant
                i <= self.judges.len(),
                names == judge_names(self@.judges),
                names.len() == self.judges.len(),
                text@ == joined(names.take(i as int), ", "@),
            decreases self.judges.len() - i,
        {
            proof {
                let now = names.take(i + 1);
                assert(now.drop_last() =~= names.take(i as int));
                assert(now.last() == self.judges@[i as int].name@);
                if i == 0 {
                    assert(text@ + now[0] =~= now[0]);
                }
            }
            if i > 0 {
                text.append(", ");
            }
            text.append(self.judges[i].name.as_str());
            i = i + 1;
        }
        assert(names.take(i as int) =~= names);
        text
    }
}

/// The six texts of a precedent's feed item.
pub open spec fn item_model(p: PrecedentModel) -> ItemModel {
    ItemModel {
        title: item_title(p),
        link: item_link(p),
        description: item_description(p),
        guid: decimal(p.id as nat),
        author: item_author(p),
        category: case_type_label(p.case_type),
    }
}

impl Rss for CourtPrecedent {
    fn get_title(&self) -> (text: String)
        ensures
            text@ == item_title(self@),
    {
        let mut text = self.title.clone();
        text.append(" (");
        text.append(self.full_case_id().as_str());
        text.append(")");
        text
    }

    fn get_link(&self) -> (text: String)
        ensures
            text@ == item_link(self@),
    {
        let kind_code = match self.court_type {
            CourtType::SupremeCourt => "2",
            _ => "1",
        };
        let mut text = String::from_str(
            "https://library.scourt.go.kr/search/judg/judgDetail?seqNo=",
        );
        text.append(decimal_text(self.id).as_str());
        text.append("&kindCode=");
        text.append(kind_code);
        text
    }

    fn get_description(&self) -> (text: String)
        ensures
            text@ == item_description(self@),
    {
        let mut text = String::from_str("<h2>판시사항</h2><p>");
        text.append(self.judge_abstract.as_str());
        text.append("</p><h2>판결요지</h2><p>");
        text.append(self.judge_note.as_str());
        text.append("</p>");
        text
    }

    fn get_guid(&self) -> (text: String)
        ensures
            text@ == decimal(self.id as nat),
    {
        decimal_text(self.id)
    }

    fn get_author(&self) -> (text: String)
        ensures
            text@ == item_author(self@),
    {
        let mut text = self.court_type.name();
        text.append(" (");
        text.append(self.judge_list().as_str());
        text.append(")");
        text
    }

    fn get_category(&self) -> (text: String)
        ensures
            text@ == case_type_label(self.case_type),
    {
        String::from_str(self.case_type.label())
    }
}

/// The mathematical values of a run of precedents.
pub open spec fn precedents_view(list: Seq<CourtPrecedent>) -> Seq<PrecedentModel> {
    list.map_values(|p: CourtPrecedent| p@)
}

/// The feed items of a run of precedents, in their order.
pub open spec fn item_models(list: Seq<PrecedentModel>) -> Seq<ItemModel> {
    list.map_values(|p: PrecedentModel| item_model(p))
}

/// Asked for its six texts, a precedent answers with its feed item and
/// with nothing else: texts that a run of precedents answered are the feed
/// items of those precedents, in their order.
pub proof fn lemma_answers_are_feed_items(list: Seq<CourtPrecedent>, texts: Seq<RssItem>)
    requires
        texts.len() == list.len(),
        forall|i: int| 0 <= i < list.len() ==> answers_of(&list[i], #[trigger] texts[i]),
    ensures
        items_view(texts) == item_models(precedents_view(list)),
{
    assert forall|i: int| 0 <= i < list.len() implies items_view(texts)[i] == item_models(
        precedents_view(list),
    )[i] by {
        assert(answers_of(&list[i], texts[i]));
    }
    assert(items_view(texts) =~= item_models(precedents_view(list)));
}

/// The feed items of `list`, one for each precedent and in the same order.
pub fn feed_items(list: &Vec<CourtPrecedent>) -> (items: Vec<RssItem>)
    ensures
        items_view(items@) == item_models(precedents_view(list@)),
{
    let mut items: Vec<RssItem> = Vec::new();
    let mut i: usize = 0;
    while i < list.len()
        invariant
            i <= list.len(),
            items.len() == i,
            forall|k: int| 0 <= k < i ==> (#[trigger] items@[k])@ == item_model(list@[k]@),
        decreases list.len() - i,
    {
        items.push(list[i].feed_item());
        i = i + 1;
    }
    assert(items_view(items@) =~= item_models(precedents_view(list@)));
    items
}

} // verus!
