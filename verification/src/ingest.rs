//! One interface over both providers: a source is chosen, and from then on
//! the shell sends what it is asked to send and reports what came back, until
//! the precedents are whole or the source has failed.

use crate::court_api;
use crate::court_api::scourt;
use crate::law_api;
use crate::law_api::request;
use crate::rss::{items_view, ItemModel, RssItem};
use crate::transport::{FeedError, FetchRequest, RequestModel};
use vstd::prelude::*;

verus! {

/// Which provider to ask, and for what.
#[derive(Debug)]
pub enum SourceConfig {
    /// The structured-JSON provider: the latest `list_size` precedents.
    Scourt { list_size: u8 },
    /// The XML provider: the latest `count` precedents of `court_type`,
    /// asked for under the credential `auth`.
    Law { auth: String, court_type: law_api::CourtType, count: u8 },
}

/// How far the ingestion from a source has come.
#[derive(Debug)]
pub enum Ingest {
    Scourt(scourt::Gathering),
    Law(request::Collecting),
}

/// The precedents of a source.
#[derive(Debug)]
pub enum Precedents {
    Scourt(Vec<court_api::CourtPrecedent>),
    Law(Vec<law_api::CourtPrecedent>),
}

/// What the shell reports back: an answer, or that none could be had.
#[derive(Debug)]
pub enum Answer {
    Replied(request::Reply),
    Failed,
}

/// What the shell is to do next.
#[derive(Debug)]
pub enum Step {
    /// Send this request and report the answer.
    Fetch(FetchRequest),
    /// The precedents are whole.
    Finish(Precedents),
    /// The source has failed.
    Abort(FeedError),
}

/// Mathematical value of an [`Ingest`].
pub ghost enum IngestModel {
    Scourt(scourt::GatherModel),
    Law(request::CollectModel),
}

/// Mathematical value of a [`Precedents`].
pub ghost enum PrecedentsModel {
    Scourt(Seq<court_api::PrecedentModel>),
    Law(Seq<law_api::PrecedentModel>),
}

/// Mathematical value of an [`Answer`].
pub ghost enum AnswerModel {
    Replied(request::ReplyModel),
    Failed,
}

impl View for Answer {
    type V = AnswerModel;

    open spec fn view(&self) -> AnswerModel {
        match self {
            Answer::Replied(reply) => AnswerModel::Replied(reply@),
            Answer::Failed => AnswerModel::Failed,
        }
    }
}

/// Mathematical value of a [`Step`].
pub ghost enum StepModel {
    Fetch(RequestModel),
    Finish(PrecedentsModel),
    Abort(FeedError),
}

impl View for Ingest {
    type V = IngestModel;

    open spec fn view(&self) -> IngestModel {
        match self {
            Ingest::Scourt(state) => IngestModel::Scourt(state@),
            Ingest::Law(state) => IngestModel::Law(state@),
        }
    }
}

impl View for Precedents {
    type V = PrecedentsModel;

    open spec fn view(&self) -> PrecedentsModel {
        match self {
            Precedents::Scourt(list) => PrecedentsModel::Scourt(court_api::precedents_view(list@)),
            Precedents::Law(list) => PrecedentsModel::Law(law_api::precedents_view(list@)),
        }
    }
}

impl View for Step {
    type V = StepModel;

    open spec fn view(&self) -> StepModel {
        match self {
            Step::Fetch(req) => StepModel::Fetch(req@),
            Step::Finish(list) => StepModel::Finish(list@),
            Step::Abort(e) => StepModel::Abort(*e),
        }
    }
}

/// What the structured-JSON provider's gathering is told of an answer: the
/// body alone counts.
pub open spec fn scourt_event(answer: AnswerModel) -> scourt::EventModel {
    match answer {
        AnswerModel::Replied(reply) => scourt::EventModel::Replied(reply.body),
        AnswerModel::Failed => scourt::EventModel::Failed,
    }
}

/// What the XML provider's collecting is told of an answer.
pub open spec fn law_event(answer: AnswerModel) -> request::EventModel {
    match answer {
        AnswerModel::Replied(reply) => request::EventModel::Replied(reply),
        AnswerModel::Failed => request::EventModel::Failed,
    }
}

/// A step of the structured-JSON provider as a step of the ingestion.
pub open spec fn from_scourt(outcome: (scourt::GatherModel, scourt::ActionModel)) -> (
    IngestModel,
    StepModel,
) {
    (
        IngestModel::Scourt(outcome.0),
        match outcome.1 {
            scourt::ActionModel::Fetch(req) => StepModel::Fetch(req),
            scourt::ActionModel::Finish(list) => StepModel::Finish(PrecedentsModel::Scourt(list)),
            scourt::ActionModel::Abort(e) => StepModel::Abort(e),
        },
    )
}

/// A step of the XML provider as a step of the ingestion.
pub open spec fn from_law(outcome: (request::CollectModel, request::ActionModel)) -> (
    IngestModel,
    StepModel,
) {
    (
        IngestModel::Law(outcome.0),
        match outcome.1 {
            request::ActionModel::Fetch(req) => StepModel::Fetch(req),
            request::ActionModel::Finish(list) => StepModel::Finish(PrecedentsModel::Law(list)),
            request::ActionModel::Abort(e) => StepModel::Abort(e),
        },
    )
}

/// The transition of the ingestion: that of the provider it draws from.
pub open spec fn step_model(state: IngestModel, answer: AnswerModel) -> (IngestModel, StepModel) {
    match state {
        IngestModel::Scourt(gathering) => from_scourt(
            scourt::step_model(gathering, scourt_event(answer)),
        ),
        IngestModel::Law(collecting) => from_law(request::step_model(collecting, law_event(answer))),
    }
}

/// The feed items of the precedents of either source, in their order.
pub open spec fn item_models(list: PrecedentsModel) -> Seq<ItemModel> {
    match list {
        PrecedentsModel::Scourt(list) => court_api::item_models(list),
        PrecedentsModel::Law(list) => law_api::item_models(list),
    }
}

/// The mathematical value of a state and a step.
pub open spec fn outcome_view(outcome: (Ingest, Step)) -> (IngestModel, StepModel) {
    (outcome.0@, outcome.1@)
}

/// A failure ends the ingestion from either source: no precedents come out.
pub proof fn lemma_failure_aborts(state: IngestModel)
    ensures
        step_model(state, AnswerModel::Failed).1 == StepModel::Abort(FeedError::Transport),
{
}

fn lift_scourt(outcome: (scourt::Gathering, scourt::Action)) -> (lifted: (Ingest, Step))
    ensures
        outcome_view(lifted) == from_scourt(scourt::outcome_view(outcome)),
{
    let (state, action) = outcome;
    let step = match action {
        scourt::Action::Fetch(req) => Step::Fetch(req),
        scourt::Action::Finish(list) => Step::Finish(Precedents::Scourt(list)),
        scourt::Action::Abort(e) => Step::Abort(e),
    };
    (Ingest::Scourt(state), step)
}

fn lift_law(outcome: (request::Collecting, request::Action)) -> (lifted: (Ingest, Step))
    ensures
        outcome_view(lifted) == from_law(request::outcome_view(outcome)),
{
    let (state, action) = outcome;
    let step = match action {
        request::Action::Fetch(req) => Step::Fetch(req),
        request::Action::Finish(list) => Step::Finish(Precedents::Law(list)),
        request::Action::Abort(e) => Step::Abort(e),
    };
    (Ingest::Law(state), step)
}

impl Ingest {
    /// Begins the ingestion from the source that `config` names: the list of
    /// that provider is asked for.
    pub fn begin(config: SourceConfig) -> (outcome: (Ingest, Step))
        ensures
            match config {
                SourceConfig::Scourt { list_size } => {
                    &&& outcome.0@ == IngestModel::Scourt(scourt::GatherModel::Listing)
                    &&& outcome.1@ == StepModel::Fetch(scourt::list_request_model(list_size))
                },
                SourceConfig::Law { auth, court_type, count } => {
                    &&& outcome.0@ == IngestModel::Law(
                        request::CollectModel { auth: auth@, stage: request::StageModel::Listing },
                    )
                    &&& outcome.1@ == StepModel::Fetch(
                        request::get_model(
                            request::list_url(auth@, court_type@, count),
                            request::PREC_LIST_CACHE_TTL,
                        ),
                    )
                },
            },
    {
        match config {
            SourceConfig::Scourt { list_size } => lift_scourt(scourt::Gathering::begin(list_size)),
            SourceConfig::Law { auth, court_type, count } => lift_law(
                request::Collecting::begin(auth, &court_type, count),
            ),
        }
    }

    /// Takes what the shell reports and says what to do next.
    pub fn step(self, answer: Answer) -> (outcome: (Ingest, Step))
        ensures
            outcome_view(outcome) == step_model(self@, answer@),
    {
        match self {
            Ingest::Scourt(gathering) => {
                let event = match answer {
                    Answer::Replied(reply) => scourt::Event::Replied(reply.body),
                    Answer::Failed => scourt::Event::Failed,
                };
                lift_scourt(gathering.step(event))
            },
            Ingest::Law(collecting) => {
                let event = match answer {
                    Answer::Replied(reply) => request::Event::Replied(reply),
                    Answer::Failed => request::Event::Failed,
                };
                lift_law(collecting.step(event))
            },
        }
    }
}

impl Precedents {
    /// The feed items of the precedents, one for each and in the same order.
    pub fn feed_items(&self) -> (items: Vec<RssItem>)
        ensures
            items_view(items@) == item_models(self@),
    {
        match self {
            Precedents::Scourt(list) => court_api::feed_items(list),
            Precedents::Law(list) => law_api::feed_items(list),
        }
    }
}

} // verus!
