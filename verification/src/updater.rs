//! The dispatcher: what arrives on the queue, and what is done about it.

use crate::bulk::Bulk;
use crate::dispatch::{Action, ActionModel, Dispatch, DispatchModel, Stage};
use crate::notification::{Flow, Notification, NotificationModel, Operation};
use crate::plan::{plan_update, targets, targets_of, update_plan};
use crate::profile::{Profile, ProfileModel};
use crate::request::{join, under};
use crate::settings::{DinoParkSettings, Endpoints};
use vstd::prelude::*;

verus! {

/// What producers put on the dispatcher's queue.
#[derive(Clone, Debug, PartialEq, Eq)]
pub enum UpdateMessage {
    /// One profile changed.
    Notification(Notification),
    /// Every profile is to be pushed again.
    Bulk(Bulk),
    /// The dispatcher is to stop.
    Stop,
}

/// What the dispatcher does about one message.
#[derive(Debug, PartialEq, Eq)]
pub enum Work {
    /// Delete the notification's profile downstream.
    Delete(Notification),
    /// Push the notification's profile downstream.
    Update(Notification),
    /// Push every profile downstream.
    Bulk,
}

/// An [`UpdateMessage`] as plain values.
pub enum MessageModel {
    Notification(NotificationModel),
    Bulk,
    Stop,
}

/// A [`Work`] as plain values.
pub enum WorkModel {
    Delete(NotificationModel),
    Update(NotificationModel),
    Bulk,
}

impl DeepView for UpdateMessage {
    type V = MessageModel;

    open spec fn deep_view(&self) -> MessageModel {
        match self {
            UpdateMessage::Notification(n) => MessageModel::Notification(n.deep_view()),
            UpdateMessage::Bulk(_) => MessageModel::Bulk,
            UpdateMessage::Stop => MessageModel::Stop,
        }
    }
}

impl DeepView for Work {
    type V = WorkModel;

    open spec fn deep_view(&self) -> WorkModel {
        match self {
            Work::Delete(n) => WorkModel::Delete(n.deep_view()),
            Work::Update(n) => WorkModel::Update(n.deep_view()),
            Work::Bulk => WorkModel::Bulk,
        }
    }
}

impl WorkModel {
    /// The flow this work follows.
    pub open spec fn flow(self) -> Flow {
        match self {
            WorkModel::Delete(_) => Flow::Delete,
            WorkModel::Update(_) => Flow::Upsert,
            WorkModel::Bulk => Flow::Bulk,
        }
    }

    /// Whether this work runs beside the dispatcher rather than in its
    /// turn: only a full re-sync does.
    pub open spec fn detached(self) -> bool {
        self is Bulk
    }

    /// The dispatch that does this work, and its first action.
    pub open spec fn started(self, dp: Endpoints) -> (DispatchModel, ActionModel) {
        match self {
            WorkModel::Delete(n) => delete_started(dp, n),
            WorkModel::Update(n) => update_started(n),
            WorkModel::Bulk => update_batch_started(),
        }
    }
}

/// The work a message calls for; none for the order to stop.
///
/// A notification is deleted where its operation is `Delete` or `Unknown`,
/// and pushed where it is `Create` or `Update`.
pub open spec fn work_for(message: MessageModel) -> Option<WorkModel> {
    match message {
        MessageModel::Notification(n) => Some(
            if n.operation.spec_flow() == Flow::Delete {
                WorkModel::Delete(n)
            } else {
                WorkModel::Update(n)
            },
        ),
        MessageModel::Bulk => Some(WorkModel::Bulk),
        MessageModel::Stop => None,
    }
}

/// The work the dispatcher does for the messages on its queue, oldest
/// first: the work for each message in turn, up to the first order to stop.
/// What is queued behind that order is never looked at.
pub open spec fn schedule(messages: Seq<MessageModel>) -> Seq<WorkModel>
    decreases messages.len(),
{
    if messages.len() == 0 {
        Seq::empty()
    } else {
        match work_for(messages.first()) {
            Some(work) => seq![work] + schedule(messages.drop_first()),
            None => Seq::empty(),
        }
    }
}

/// Whether an order to stop is among the messages.
pub open spec fn stops(messages: Seq<MessageModel>) -> bool {
    exists|i: int| 0 <= i < messages.len() && #[trigger] messages[i] is Stop
}

/// Every notification takes exactly one of two flows: it is deleted where
/// its operation is `Delete` or `Unknown`, pushed where it is `Create` or
/// `Update`, and never both or neither.
pub proof fn notification_takes_one_flow(n: NotificationModel)
    ensures
        ({
            let work = work_for(MessageModel::Notification(n));
            let deleting = n.operation == Operation::Delete || n.operation == Operation::Unknown;
            let pushing = n.operation == Operation::Create || n.operation == Operation::Update;
            &&& deleting != pushing
            &&& deleting <==> work == Some(WorkModel::Delete(n))
            &&& pushing <==> work == Some(WorkModel::Update(n))
            &&& work is Some && !work->0.detached()
            &&& work->0.flow() == n.operation.spec_flow()
        }),
{
}

/// Work is scheduled in the order of arrival, one piece for each message:
/// the `i`th piece of work is the work for the `i`th message, and no order
/// to stop comes before that message.
pub proof fn schedule_follows_arrival(messages: Seq<MessageModel>, i: int)
    requires
        0 <= i < schedule(messages).len(),
    ensures
        i < messages.len(),
        work_for(messages[i]) == Some(schedule(messages)[i]),
        forall|j: int| 0 <= j <= i ==> !(#[trigger] messages[j] is Stop),
    decreases messages.len(),
{
    if messages.len() > 0 && work_for(messages.first()) is Some {
        let rest = messages.drop_first();
        if i > 0 {
            schedule_follows_arrival(rest, i - 1);
            assert(rest[i - 1] == messages[i]);
            assert forall|j: int| 0 <= j <= i implies !(#[trigger] messages[j] is Stop) by {
                if j > 0 {
                    assert(rest[j - 1] == messages[j]);
                }
            }
        }
    }
}

/// Where no order to stop is queued, every message gets its piece of work.
pub proof fn schedule_is_complete(messages: Seq<MessageModel>)
    requires
        !stops(messages),
    ensures
        schedule(messages).len() == messages.len(),
    decreases messages.len(),
{
    if messages.len() > 0 {
        let rest = messages.drop_first();
        assert(!(messages[0] is Stop));
        assert forall|j: int| 0 <= j < rest.len() implies !(#[trigger] rest[j] is Stop) by {
            assert(rest[j] == messages[j + 1]);
        }
        schedule_is_complete(rest);
    }
}

/// Nothing is done about what is queued behind an order to stop.
pub proof fn schedule_ends_at_stop(before: Seq<MessageModel>, after: Seq<MessageModel>)
    ensures
        schedule(before + seq![MessageModel::Stop] + after) == schedule(before),
    decreases before.len(),
{
    let all = before + seq![MessageModel::Stop] + after;
    if before.len() == 0 {
        assert(all.first() is Stop);
    } else {
        assert(all.first() == before.first());
        assert(all.drop_first() =~= before.drop_first() + seq![MessageModel::Stop] + after);
        schedule_ends_at_stop(before.drop_first(), after);
    }
}

/// Notifications are never merged: a notification that arrives twice is
/// dispatched twice, each time as if it were the only one.
pub proof fn repeated_notification_is_dispatched_again(
    n: NotificationModel,
    rest: Seq<MessageModel>,
)
    ensures
        ({
            let message = MessageModel::Notification(n);
            let work = work_for(message)->0;
            &&& schedule(seq![message]) == seq![work]
            &&& schedule(seq![message, message] + rest) == seq![work, work] + schedule(rest)
        }),
{
    let message = MessageModel::Notification(n);
    let work = work_for(message)->0;
    let once = seq![message];
    assert(once.first() == message);
    assert(once.drop_first() =~= Seq::<MessageModel>::empty());
    assert(schedule(Seq::<MessageModel>::empty()) =~= Seq::<WorkModel>::empty());
    assert(schedule(once) =~= seq![work]);
    let all = seq![message, message] + rest;
    let tail = all.drop_first();
    assert(tail =~= seq![message] + rest);
    assert(tail.first() == message);
    assert(tail.drop_first() =~= rest);
    assert(schedule(tail) =~= seq![work] + schedule(rest));
    assert(schedule(all) =~= seq![work, work] + schedule(rest));
}

/// A fresh dispatch of `flow` about the profile `id`, waiting at `stage`.
pub open spec fn fresh(flow: Flow, stage: Stage, id: Seq<char>) -> DispatchModel {
    DispatchModel { flow, stage, id, pending: Seq::empty() }
}

/// How a deletion starts: by looking the internal identifier up, at the
/// notification's id below the lookup endpoint.
pub open spec fn delete_started(dp: Endpoints, n: NotificationModel) -> (
    DispatchModel,
    ActionModel,
) {
    (
        fresh(Flow::Delete, Stage::Resolving, n.id),
        ActionModel::Resolve(under(dp.uuid_by_user_id, n.id)),
    )
}

/// How an upsert starts: by asking for the active profile.
pub open spec fn update_started(n: NotificationModel) -> (DispatchModel, ActionModel) {
    (fresh(Flow::Upsert, Stage::FetchingActive, n.id), ActionModel::FetchActive(n.id))
}

/// How the push of a profile at hand starts: by sending it.
pub open spec fn send_profile_started(dp: Endpoints, profile: ProfileModel) -> (
    DispatchModel,
    ActionModel,
) {
    let plan = update_plan(dp, profile.document);
    (
        DispatchModel {
            flow: Flow::Upsert,
            stage: Stage::Sending,
            id: profile.label(),
            pending: targets_of(plan),
        },
        ActionModel::Send(plan),
    )
}

/// How a full re-sync starts: by asking the source to hand out its pages.
pub open spec fn update_batch_started() -> (DispatchModel, ActionModel) {
    (fresh(Flow::Bulk, Stage::Opening, Seq::empty()), ActionModel::OpenPages)
}

/// Starts the deletion of the profile that `n` is about.
///
/// The first action is the lookup of the profile's internal identifier;
/// nothing is deleted before that is known.
pub fn delete(dp: &DinoParkSettings, n: &Notification) -> (started: (Dispatch, Action))
    ensures
        (started.0.deep_view(), started.1.deep_view()) == delete_started(
            dp.deep_view(),
            n.deep_view(),
        ),
{
    let dispatch = Dispatch {
        flow: Flow::Delete,
        stage: Stage::Resolving,
        id: n.id.clone(),
        pending: Vec::new(),
    };
    let url = join(dp.uuid_by_user_id_endpoint.as_str(), n.id.as_str());
    (dispatch, Action::Resolve(url))
}

/// Starts the push of the profile that `n` is about.
///
/// The first action asks the source for the active profile.
pub fn update(n: &Notification) -> (started: (Dispatch, Action))
    ensures
        (started.0.deep_view(), started.1.deep_view()) == update_started(n.deep_view()),
{
    let dispatch = Dispatch {
        flow: Flow::Upsert,
        stage: Stage::FetchingActive,
        id: n.id.clone(),
        pending: Vec::new(),
    };
    (dispatch, Action::FetchActive(n.id.clone()))
}

/// Starts the push of a profile that is at hand.
///
/// The first action sends the profile's document to every configured
/// service.
pub fn send_profile(dp: &DinoParkSettings, profile: Profile) -> (started: (Dispatch, Action))
    ensures
        (started.0.deep_view(), started.1.deep_view()) == send_profile_started(
            dp.deep_view(),
            profile.deep_view(),
        ),
{
    let plan = plan_update(dp, &profile.document);
    let dispatch = Dispatch {
        flow: Flow::Upsert,
        stage: Stage::Sending,
        id: profile.label(),
        pending: targets(&plan),
    };
    (dispatch, Action::Send(plan))
}

/// Starts a full re-sync.
///
/// The first action asks the source to hand out its profiles in pages.
pub fn update_batch() -> (started: (Dispatch, Action))
    ensures
        (started.0.deep_view(), started.1.deep_view()) == update_batch_started(),
{
    let dispatch = Dispatch {
        flow: Flow::Bulk,
        stage: Stage::Opening,
        id: String::new(),
        pending: Vec::new(),
    };
    (dispatch, Action::OpenPages)
}

impl Work {
    /// Whether this work runs beside the dispatcher rather than in its
    /// turn. Only a full re-sync does, so that it never holds up a
    /// notification.
    pub fn detached(&self) -> (detached: bool)
        ensures
            detached == self.deep_view().detached(),
    {
        match self {
            Work::Bulk => true,
            _ => false,
        }
    }
}

/// What the dispatcher made of a backlog.
#[derive(Debug, PartialEq, Eq)]
pub struct Round {
    /// The work to do, in order.
    pub work: Vec<Work>,
    /// Whether the backlog held the order to stop.
    pub stopped: bool,
}

/// The dispatcher: the one consumer of the queue.
#[derive(Debug, PartialEq, Eq)]
pub struct InternalUpdater {
    /// The endpoints every dispatch calls.
    pub dino_park_settings: DinoParkSettings,
}

/// Up to an order to stop, the schedule goes message by message.
proof fn schedule_unfolds(messages: Seq<MessageModel>, i: int)
    requires
        0 <= i < messages.len(),
        forall|j: int| 0 <= j <= i ==> !(#[trigger] messages[j] is Stop),
    ensures
        schedule(messages.skip(i)) == seq![work_for(messages[i])->0] + schedule(
            messages.skip(i + 1),
        ),
{
    let rest = messages.skip(i);
    assert(rest.first() == messages[i]);
    assert(rest.drop_first() =~= messages.skip(i + 1));
}

impl InternalUpdater {
    /// A dispatcher for these endpoints.
    pub fn new(dino_park_settings: DinoParkSettings) -> (updater: InternalUpdater)
        ensures
            updater.dino_park_settings == dino_park_settings,
    {
        InternalUpdater { dino_park_settings }
    }

    /// Starts a piece of work: the dispatch that does it, and its first
    /// action.
    pub fn start(&self, work: &Work) -> (started: (Dispatch, Action))
        ensures
            (started.0.deep_view(), started.1.deep_view()) == work.deep_view().started(
                self.dino_park_settings.deep_view(),
            ),
    {
        match work {
            Work::Delete(n) => delete(&self.dino_park_settings, n),
            Work::Update(n) => update(n),
            Work::Bulk => update_batch(),
        }
    }

    /// Goes through a backlog of queued messages, oldest first, and says
    /// what is to be done about each.
    ///
    /// Every message before the first order to stop gets its own piece of
    /// work, in the order of arrival; two equal notifications are two
    /// pieces of work. From the order to stop on, nothing is looked at.
    pub fn run(&self, backlog: Vec<UpdateMessage>) -> (round: Round)
        ensures
            round.work.deep_view() == schedule(backlog.deep_view()),
            round.stopped == stops(backlog.deep_view()),
    {
        let ghost all = backlog.deep_view();
        let mut backlog = backlog;
        let mut work: Vec<Work> = Vec::new();
        let mut stopped = false;
        let mut i: usize = 0;
        let n = backlog.len();
        assert(all.skip(0) =~= all);
        assert(work.deep_view() + schedule(all.skip(0)) =~= schedule(all));
        while i < n && !stopped
            invariant
                i <= n,
                n == backlog.len(),
                all.len() == n,
                forall|j: int| i <= j < n ==> (#[trigger] backlog[j]).deep_view() == all[j],
                !stopped ==> forall|j: int| 0 <= j < i ==> !(#[trigger] all[j] is Stop),
                !stopped ==> work.deep_view() + schedule(all.skip(i as int)) == schedule(all),
                stopped ==> work.deep_view() == schedule(all),
                stopped ==> stops(all),
            decreases n - i + if stopped { 0int } else { 1int },
        {
            let mut message = UpdateMessage::Stop;
            std::mem::swap(&mut message, &mut backlog[i]);
            let ghost before = work.deep_view();
            match message {
                UpdateMessage::Stop => {
                    stopped = true;
                    proof {
                        assert(all[i as int] is Stop);
                        assert(all.skip(i as int).first() == all[i as int]);
                        assert(schedule(all.skip(i as int)) =~= Seq::<WorkModel>::empty());
                        assert(work.deep_view() =~= schedule(all));
                    }
                },
                UpdateMessage::Notification(notification) => {
                    match notification.operation.flow() {
                        Flow::Delete => work.push(Work::Delete(notification)),
                        _ => work.push(Work::Update(notification)),
                    }
                    proof {
                        schedule_unfolds(all, i as int);
                        assert(work.deep_view() =~= before.push(work_for(all[i as int])->0));
                        assert(work.deep_view() + schedule(all.skip(i + 1)) =~= schedule(all));
                    }
                    i += 1;
                },
                UpdateMessage::Bulk(_) => {
                    work.push(Work::Bulk);
                    proof {
                        schedule_unfolds(all, i as int);
                        assert(work.deep_view() =~= before.push(work_for(all[i as int])->0));
                        assert(work.deep_view() + schedule(all.skip(i + 1)) =~= schedule(all));
                    }
                    i += 1;
                },
            }
        }
        proof {
            if !stopped {
                assert(i == n);
                assert(schedule(all.skip(n as int)) =~= Seq::<WorkModel>::empty());
                assert(work.deep_view() =~= schedule(all));
                assert(!stops(all));
            }
        }
        Round { work, stopped }
    }
}

} // verus!
