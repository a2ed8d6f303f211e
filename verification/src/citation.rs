//! The rules that name a court, classify a ruling and compose a citation.
//! They are stated once, over mathematical values; the provider modules hold
//! the data types that carry them.

use vstd::prelude::*;

verus! {

/// A court: the Supreme Court, or another court by its name.
pub ghost enum CourtModel {
    SupremeCourt,
    Court(Seq<char>),
}

/// The procedural form of a ruling.
pub ghost enum Kind {
    /// Judgment of the full bench.
    EnBank,
    /// Decision of the full bench.
    EnBankDecision,
    /// Judgment.
    Judgement,
    /// Decision.
    Decision,
    /// Order.
    Order,
    /// Absent upstream, or a form that is not known.
    Unknown,
}

/// The court that an upstream court name stands for: the Supreme Court's own
/// name gives the Supreme Court, every other text a court of that name.
pub open spec fn court_of(text: Seq<char>) -> CourtModel {
    if text == "대법원"@ {
        CourtModel::SupremeCourt
    } else {
        CourtModel::Court(text)
    }
}

/// The name under which a court is cited.
pub open spec fn court_name(court: CourtModel) -> Seq<char> {
    match court {
        CourtModel::SupremeCourt => "대법원"@,
        CourtModel::Court(name) => name,
    }
}

/// The form of ruling that an upstream label stands for; a label that is not
/// known gives [`Kind::Unknown`].
pub open spec fn kind_of(text: Seq<char>) -> Kind {
    if text == "전원합의체 판결"@ {
        Kind::EnBank
    } else if text == "전원합의체 결정"@ {
        Kind::EnBankDecision
    } else if text == "판결"@ {
        Kind::Judgement
    } else if text == "결정"@ {
        Kind::Decision
    } else if text == "명령"@ {
        Kind::Order
    } else {
        Kind::Unknown
    }
}

/// The label of a form of ruling in a citation; empty for an unknown form.
pub open spec fn kind_label(kind: Kind) -> Seq<char> {
    match kind {
        Kind::EnBank => "전원합의체 판결"@,
        Kind::EnBankDecision => "전원합의체 결정"@,
        Kind::Judgement => "판결"@,
        Kind::Decision => "결정"@,
        Kind::Order => "명령"@,
        Kind::Unknown => Seq::<char>::empty(),
    }
}

/// The word between date and case number: a judgment is pronounced, every
/// other ruling is cited as of its date.
pub open spec fn connector(kind: Kind) -> Seq<char> {
    match kind {
        Kind::EnBank | Kind::Judgement => "선고"@,
        _ => "자"@,
    }
}

/// A citation: court, date, connector, case number and the label of the form
/// of ruling, each parted from the next by one space.
pub open spec fn cite(court: Seq<char>, date: Seq<char>, kind: Kind, code: Seq<char>) -> Seq<
    char,
> {
    court + " "@ + date + " "@ + connector(kind) + " "@ + code + " "@ + kind_label(kind)
}

/// The labels of the known forms of ruling are five different texts, none of
/// them empty, and the two connectors differ.
pub proof fn lemma_labels_differ()
    ensures
        forall|a: Kind, b: Kind| a != b ==> #[trigger] kind_label(a) != #[trigger] kind_label(b),
        "선고"@ != "자"@,
{
    reveal_strlit("전원합의체 판결");
    reveal_strlit("전원합의체 결정");
    reveal_strlit("판결");
    reveal_strlit("결정");
    reveal_strlit("명령");
    reveal_strlit("선고");
    reveal_strlit("자");
    assert("전원합의체 판결"@[6] == '판');
    assert("전원합의체 결정"@[6] == '결');
    assert("판결"@[0] == '판');
    assert("결정"@[0] == '결');
    assert("명령"@[0] == '명');
    assert("전원합의체 판결"@.len() == 8);
    assert("전원합의체 결정"@.len() == 8);
    assert("판결"@.len() == 2);
    assert("결정"@.len() == 2);
    assert("명령"@.len() == 2);
    assert("선고"@.len() == 2);
    assert("자"@.len() == 1);
    assert forall|a: Kind, b: Kind| a != b implies #[trigger] kind_label(a) != #[trigger] kind_label(
        b,
    ) by {
        if kind_label(a).len() == kind_label(b).len() && kind_label(a).len() > 0 {
            assert(kind_label(a)[0] != kind_label(b)[0] || kind_label(a)[6] != kind_label(b)[6]);
        }
    }
}

/// The mapping from upstream labels to forms of ruling is total: each of the
/// five labels is read as its own form, and every other text as unknown.
pub proof fn lemma_kind_mapping(text: Seq<char>)
    ensures
        forall|kind: Kind| kind != Kind::Unknown ==> kind_of(#[trigger] kind_label(kind)) == kind,
        (forall|kind: Kind| kind != Kind::Unknown ==> text != #[trigger] kind_label(kind))
            ==> kind_of(text) == Kind::Unknown,
        kind_of(text) != Kind::Unknown ==> kind_label(kind_of(text)) == text,
{
    lemma_labels_differ();
    assert forall|kind: Kind| kind != Kind::Unknown implies kind_of(#[trigger] kind_label(kind))
        == kind by {
        assert(kind_label(kind) != kind_label(Kind::EnBank) || kind == Kind::EnBank);
        assert(kind_label(kind) != kind_label(Kind::EnBankDecision) || kind
            == Kind::EnBankDecision);
        assert(kind_label(kind) != kind_label(Kind::Judgement) || kind == Kind::Judgement);
        assert(kind_label(kind) != kind_label(Kind::Decision) || kind == Kind::Decision);
        assert(kind_label(kind) != kind_label(Kind::Order) || kind == Kind::Order);
    }
    if forall|kind: Kind| kind != Kind::Unknown ==> text != #[trigger] kind_label(kind) {
        assert(text != kind_label(Kind::EnBank));
        assert(text != kind_label(Kind::EnBankDecision));
        assert(text != kind_label(Kind::Judgement));
        assert(text != kind_label(Kind::Decision));
        assert(text != kind_label(Kind::Order));
    }
}

/// Every court name is read as one court, and that court is cited under the
/// name it was read from.
pub proof fn lemma_court_mapping(text: Seq<char>)
    ensures
        court_name(court_of(text)) == text,
        court_of(text) is SupremeCourt <==> text == "대법원"@,
{
}

/// The connector of a citation is the word for a pronounced judgment exactly
/// for judgments, of the full bench or not, and the word for "as of" for
/// every other form of ruling.
pub proof fn lemma_connector_rule(kind: Kind)
    ensures
        connector(kind) == "선고"@ <==> (kind is Judgement || kind is EnBank),
        connector(kind) == "자"@ <==> !(kind is Judgement || kind is EnBank),
{
    lemma_labels_differ();
}

/// A ruling of unknown form is cited with court, date and case number, the
/// connector for "as of", and an empty label at the end.
pub proof fn lemma_unknown_citation(court: Seq<char>, date: Seq<char>, code: Seq<char>)
    ensures
        cite(court, date, Kind::Unknown, code) == court + " "@ + date + " 자 "@ + code + " "@,
{
    reveal_strlit(" ");
    reveal_strlit("자");
    reveal_strlit(" 자 ");
    assert(" "@ + "자"@ + " "@ =~= " 자 "@);
    assert(cite(court, date, Kind::Unknown, code) =~= court + " "@ + date + (" "@ + "자"@ + " "@)
        + code + " "@);
}

} // verus!
