//! One piece of work as a sequence of turns.
//!
//! A dispatch never talks to the outside itself. Each turn it names the
//! next thing to be done there (an [`Action`]) and waits to be told how
//! that went (an [`Event`]). Whoever drives it performs the action and
//! reports back, until the action is [`Action::Finish`].

use crate::error::{ErrorModel, UpdateError};
use crate::notification::Flow;
use crate::plan::{
    bulk_plan, collect_failures, delete_plan, failures, plan_bulk, plan_delete, plan_update,
    targets, targets_of, update_plan, verdict,
};
use crate::profile::{documents, encode_page, json_array, Profile, ProfileModel};
use crate::request::{Reply, ReplyModel, Request, RequestModel, Target};
use crate::settings::{DinoParkSettings, Endpoints};
use vstd::prelude::*;

verus! {

/// What a dispatch is waiting for.
#[derive(Clone, Copy, Debug, PartialEq, Eq, Structural)]
pub enum Stage {
    /// The internal identifier of the profile to delete.
    Resolving,
    /// The profile, asked for among the active ones.
    FetchingActive,
    /// The profile, asked for among the inactive ones.
    FetchingInactive,
    /// The source's word that it can hand out pages.
    Opening,
    /// The next page of profiles.
    Paging,
    /// The replies to the calls of a fan-out.
    Sending,
    /// Nothing: the dispatch is over.
    Finished,
}

/// One piece of work in progress.
#[derive(Debug, PartialEq, Eq)]
pub struct Dispatch {
    /// The flow this dispatch follows.
    pub flow: Flow,
    /// What it is waiting for.
    pub stage: Stage,
    /// The identifier of the profile it is about, at the source; empty for
    /// the bulk flow.
    pub id: String,
    /// While sending: the services called, in the order of the calls.
    pub pending: Vec<Target>,
}

/// How the action of the last turn went.
#[derive(Debug, PartialEq, Eq)]
pub enum Event {
    /// The lookup answered: with the internal identifier, or with none.
    Uuid(Option<String>),
    /// The source gave the profile.
    Profile(Profile),
    /// The source is ready to hand out pages.
    Pages,
    /// The source gave its next page.
    Page(Vec<Profile>),
    /// The source has no more pages.
    NoMorePages,
    /// The calls were made; reply `i` answers call `i`.
    Replies(Vec<Reply>),
    /// The action could not be carried out; the text says why.
    Failed(String),
}

/// What is to be done next outside.
#[derive(Debug, PartialEq, Eq)]
pub enum Action {
    /// Get the document at this address and read the internal identifier
    /// from it. Answer with [`Event::Uuid`] or [`Event::Failed`].
    Resolve(String),
    /// Ask the source for the active profile with this identifier. Answer
    /// with [`Event::Profile`] or [`Event::Failed`].
    FetchActive(String),
    /// Ask the source for the inactive profile with this identifier. Answer
    /// with [`Event::Profile`] or [`Event::Failed`].
    FetchInactive(String),
    /// Ask the source for all its profiles, in pages. Answer with
    /// [`Event::Pages`] or [`Event::Failed`].
    OpenPages,
    /// Take the next page. Answer with [`Event::Page`],
    /// [`Event::NoMorePages`], or [`Event::Failed`] for a page that could
    /// not be had.
    NextPage,
    /// Make all these calls at once and wait for all of them. Answer with
    /// [`Event::Replies`].
    Send(Vec<Request>),
    /// Nothing more: the dispatch ended like this.
    Finish(Result<(), UpdateError>),
}

/// What a dispatch answers to an event.
#[derive(Debug, PartialEq, Eq)]
pub struct Turn {
    /// What to do next.
    pub action: Action,
    /// The errors of the fan-out that the event reported on, one for each
    /// call that was not acknowledged; empty after any other event.
    pub failures: Vec<UpdateError>,
}

/// A [`Dispatch`] as plain values.
pub struct DispatchModel {
    pub flow: Flow,
    pub stage: Stage,
    pub id: Seq<char>,
    pub pending: Seq<Target>,
}

/// An [`Event`] as plain values.
pub enum EventModel {
    Uuid(Option<Seq<char>>),
    Profile(ProfileModel),
    Pages,
    Page(Seq<ProfileModel>),
    NoMorePages,
    Replies(Seq<ReplyModel>),
    Failed(Seq<char>),
}

/// An [`Action`] as plain values.
pub enum ActionModel {
    Resolve(Seq<char>),
    FetchActive(Seq<char>),
    FetchInactive(Seq<char>),
    OpenPages,
    NextPage,
    Send(Seq<RequestModel>),
    Finish(Result<(), ErrorModel>),
}

/// A [`Turn`] as plain values.
pub struct TurnModel {
    pub action: ActionModel,
    pub failures: Seq<ErrorModel>,
}

impl DeepView for Dispatch {
    type V = DispatchModel;

    open spec fn deep_view(&self) -> DispatchModel {
        DispatchModel { flow: self.flow, stage: self.stage, id: self.id@, pending: self.pending@ }
    }
}

impl DeepView for Event {
    type V = EventModel;

    open spec fn deep_view(&self) -> EventModel {
        match self {
            Event::Uuid(uuid) => EventModel::Uuid(uuid.deep_view()),
            Event::Profile(profile) => EventModel::Profile(profile.deep_view()),
            Event::Pages => EventModel::Pages,
            Event::Page(page) => EventModel::Page(page.deep_view()),
            Event::NoMorePages => EventModel::NoMorePages,
            Event::Replies(replies) => EventModel::Replies(replies.deep_view()),
            Event::Failed(why) => EventModel::Failed(why@),
        }
    }
}

/// The outcome of a dispatch as plain values.
pub open spec fn outcome_model(outcome: Result<(), UpdateError>) -> Result<(), ErrorModel> {
    match outcome {
        Ok(_) => Ok(()),
        Err(error) => Err(error.deep_view()),
    }
}

impl DeepView for Action {
    type V = ActionModel;

    open spec fn deep_view(&self) -> ActionModel {
        match self {
            Action::Resolve(url) => ActionModel::Resolve(url@),
            Action::FetchActive(id) => ActionModel::FetchActive(id@),
            Action::FetchInactive(id) => ActionModel::FetchInactive(id@),
            Action::OpenPages => ActionModel::OpenPages,
            Action::NextPage => ActionModel::NextPage,
            Action::Send(plan) => ActionModel::Send(plan.deep_view()),
            Action::Finish(outcome) => ActionModel::Finish(outcome_model(*outcome)),
        }
    }
}

impl DeepView for Turn {
    type V = TurnModel;

    open spec fn deep_view(&self) -> TurnModel {
        TurnModel { action: self.action.deep_view(), failures: self.failures.deep_view() }
    }
}

impl DispatchModel {
    /// This dispatch at another stage, with nothing pending.
    pub open spec fn at(self, stage: Stage) -> DispatchModel {
        DispatchModel { stage, pending: Seq::empty(), ..self }
    }

    /// This dispatch, over.
    pub open spec fn over(self) -> DispatchModel {
        self.at(Stage::Finished)
    }

    /// This dispatch after it has sent `plan`.
    pub open spec fn sending(self, plan: Seq<RequestModel>) -> DispatchModel {
        DispatchModel { stage: Stage::Sending, pending: targets_of(plan), ..self }
    }
}

/// A turn that only names the next action.
pub open spec fn quiet(action: ActionModel) -> TurnModel {
    TurnModel { action, failures: Seq::empty() }
}

/// A turn that ends the dispatch for an event that does not answer what it
/// was waiting for.
pub open spec fn out_of_turn() -> TurnModel {
    quiet(ActionModel::Finish(Err(ErrorModel::Other)))
}

/// What a dispatch that is sending becomes on the replies to its calls, and
/// what it answers.
///
/// There must be one reply per call; otherwise the replies do not answer
/// the calls, and the dispatch ends in `Other`. In the bulk flow the next
/// page is asked for, however the calls went. In the other flows the
/// dispatch ends: in success where every call was acknowledged, in `Other`
/// otherwise. Either way the turn lists the errors of the calls.
pub open spec fn settled(dispatch: DispatchModel, replies: Seq<ReplyModel>) -> (
    DispatchModel,
    TurnModel,
) {
    if replies.len() != dispatch.pending.len() {
        (dispatch.over(), out_of_turn())
    } else {
        let failures = failures(dispatch.flow, dispatch.pending, replies);
        if dispatch.flow == Flow::Bulk {
            (dispatch.at(Stage::Paging), TurnModel { action: ActionModel::NextPage, failures })
        } else {
            (
                dispatch.over(),
                TurnModel { action: ActionModel::Finish(verdict(replies)), failures },
            )
        }
    }
}

/// What a dispatch becomes on an event, and what it answers.
///
/// * Waiting for the internal identifier: with one, the deletions are sent;
///   with none, or after a failed lookup, the dispatch ends in
///   `IdResolution` and nothing is sent.
/// * Waiting for the active profile: with it, the profile is sent; after a
///   failure the inactive one is asked for.
/// * Waiting for the inactive profile: with it, the profile is sent; after
///   a failure the dispatch ends in `ProfileSource` and nothing is sent.
/// * Waiting for the source to open: once open, the first page is asked
///   for; after a failure the dispatch ends in `ProfileSource`.
/// * Waiting for a page: a page is encoded and sent; a page that could not
///   be had is passed over and the next one asked for; with no more pages
///   the dispatch ends in success.
/// * Waiting for replies: see [`settled`]. Where the calls could not be made
///   at all, the bulk flow passes the page over and asks for the next one;
///   the other flows end in `Other`.
/// * Any other event ends the dispatch in `Other`.
pub open spec fn transition(dp: Endpoints, dispatch: DispatchModel, event: EventModel) -> (
    DispatchModel,
    TurnModel,
) {
    match (dispatch.stage, event) {
        (Stage::Resolving, EventModel::Uuid(Some(uuid))) => {
            let plan = delete_plan(dp, uuid);
            (dispatch.sending(plan), quiet(ActionModel::Send(plan)))
        },
        (Stage::Resolving, EventModel::Uuid(None)) | (Stage::Resolving, EventModel::Failed(_)) => (
            dispatch.over(),
            quiet(ActionModel::Finish(Err(ErrorModel::IdResolution))),
        ),
        (Stage::FetchingActive, EventModel::Profile(profile)) | (
            Stage::FetchingInactive,
            EventModel::Profile(profile),
        ) => {
            let plan = update_plan(dp, profile.document);
            (dispatch.sending(plan), quiet(ActionModel::Send(plan)))
        },
        (Stage::FetchingActive, EventModel::Failed(_)) => (
            dispatch.at(Stage::FetchingInactive),
            quiet(ActionModel::FetchInactive(dispatch.id)),
        ),
        (Stage::FetchingInactive, EventModel::Failed(why)) | (
            Stage::Opening,
            EventModel::Failed(why),
        ) => (dispatch.over(), quiet(ActionModel::Finish(Err(ErrorModel::ProfileSource(why))))),
        (Stage::Opening, EventModel::Pages) | (Stage::Paging, EventModel::Failed(_)) => (
            dispatch.at(Stage::Paging),
            quiet(ActionModel::NextPage),
        ),
        (Stage::Paging, EventModel::Page(page)) => {
            let plan = bulk_plan(dp, json_array(documents(page)));
            (dispatch.sending(plan), quiet(ActionModel::Send(plan)))
        },
        (Stage::Paging, EventModel::NoMorePages) => (
            dispatch.over(),
            quiet(ActionModel::Finish(Ok(()))),
        ),
        (Stage::Sending, EventModel::Replies(replies)) => settled(dispatch, replies),
        (Stage::Sending, EventModel::Failed(_)) => {
            if dispatch.flow == Flow::Bulk {
                (dispatch.at(Stage::Paging), quiet(ActionModel::NextPage))
            } else {
                (dispatch.over(), out_of_turn())
            }
        },
        _ => (dispatch.over(), out_of_turn()),
    }
}

impl Dispatch {
    /// Ends the dispatch with `outcome`.
    fn finish(&mut self, outcome: Result<(), UpdateError>) -> (turn: Turn)
        ensures
            final(self).deep_view() == old(self).deep_view().over(),
            turn.deep_view() == quiet(ActionModel::Finish(outcome_model(outcome))),
    {
        self.stage = Stage::Finished;
        self.pending = Vec::new();
        let turn = Turn { action: Action::Finish(outcome), failures: Vec::new() };
        assert(turn.failures.deep_view() =~= Seq::<ErrorModel>::empty());
        turn
    }

    /// Moves the dispatch to `stage`, where it waits for the answer to
    /// `action`.
    fn wait(&mut self, stage: Stage, action: Action) -> (turn: Turn)
        ensures
            final(self).deep_view() == old(self).deep_view().at(stage),
            turn.deep_view() == quiet(action.deep_view()),
    {
        self.stage = stage;
        self.pending = Vec::new();
        let turn = Turn { action, failures: Vec::new() };
        assert(turn.failures.deep_view() =~= Seq::<ErrorModel>::empty());
        turn
    }

    /// Sends `plan` and waits for its replies.
    fn send(&mut self, plan: Vec<Request>) -> (turn: Turn)
        ensures
            final(self).deep_view() == old(self).deep_view().sending(plan.deep_view()),
            turn.deep_view() == quiet(ActionModel::Send(plan.deep_view())),
    {
        self.stage = Stage::Sending;
        self.pending = targets(&plan);
        let turn = Turn { action: Action::Send(plan), failures: Vec::new() };
        assert(turn.failures.deep_view() =~= Seq::<ErrorModel>::empty());
        turn
    }

    /// Takes the replies of the fan-out that is under way.
    fn settle(&mut self, replies: Vec<Reply>) -> (turn: Turn)
        ensures
            (final(self).deep_view(), turn.deep_view()) == settled(
                old(self).deep_view(),
                replies.deep_view(),
            ),
    {
        if replies.len() != self.pending.len() {
            return self.finish(Err(UpdateError::Other));
        }
        let errors = collect_failures(self.flow, &self.pending, replies);
        let all_clear = errors.len() == 0;
        match self.flow {
            Flow::Bulk => {
                self.stage = Stage::Paging;
                self.pending = Vec::new();
                Turn { action: Action::NextPage, failures: errors }
            },
            _ => {
                self.stage = Stage::Finished;
                self.pending = Vec::new();
                let outcome = if all_clear {
                    Ok(())
                } else {
                    Err(UpdateError::Other)
                };
                Turn { action: Action::Finish(outcome), failures: errors }
            },
        }
    }

    /// Takes the answer to the last action and names the next one.
    ///
    /// `dp` are the endpoints the calls go to. The dispatch and its answer
    /// are those that [`transition`] gives.
    pub fn step(&mut self, dp: &DinoParkSettings, event: Event) -> (turn: Turn)
        ensures
            (final(self).deep_view(), turn.deep_view()) == transition(
                dp.deep_view(),
                old(self).deep_view(),
                event.deep_view(),
            ),
    {
        match self.stage {
            Stage::Resolving => match event {
                Event::Uuid(Some(uuid)) => self.send(plan_delete(dp, &uuid)),
                Event::Uuid(None) => self.finish(Err(UpdateError::IdResolution)),
                Event::Failed(_) => self.finish(Err(UpdateError::IdResolution)),
                _ => self.finish(Err(UpdateError::Other)),
            },
            Stage::FetchingActive => match event {
                Event::Profile(profile) => self.send(plan_update(dp, &profile.document)),
                Event::Failed(_) => {
                    let id = self.id.clone();
                    self.wait(Stage::FetchingInactive, Action::FetchInactive(id))
                },
                _ => self.finish(Err(UpdateError::Other)),
            },
            Stage::FetchingInactive => match event {
                Event::Profile(profile) => self.send(plan_update(dp, &profile.document)),
                Event::Failed(why) => self.finish(Err(UpdateError::ProfileSource(why))),
                _ => self.finish(Err(UpdateError::Other)),
            },
            Stage::Opening => match event {
                Event::Pages => self.wait(Stage::Paging, Action::NextPage),
                Event::Failed(why) => self.finish(Err(UpdateError::ProfileSource(why))),
                _ => self.finish(Err(UpdateError::Other)),
            },
            Stage::Paging => match event {
                Event::Page(page) => {
                    let text = encode_page(&page);
                    self.send(plan_bulk(dp, &text))
                },
                Event::NoMorePages => self.finish(Ok(())),
                Event::Failed(_) => self.wait(Stage::Paging, Action::NextPage),
                _ => self.finish(Err(UpdateError::Other)),
            },
            Stage::Sending => match event {
                Event::Replies(replies) => self.settle(replies),
                Event::Failed(_) => match self.flow {
                    Flow::Bulk => self.wait(Stage::Paging, Action::NextPage),
                    _ => self.finish(Err(UpdateError::Other)),
                },
                _ => self.finish(Err(UpdateError::Other)),
            },
            Stage::Finished => self.finish(Err(UpdateError::Other)),
        }
    }
}

} // verus!
