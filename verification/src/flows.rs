//! The three flows from start to end: what holds of every dispatch that
//! follows one of them.

use crate::dispatch::{transition, ActionModel, DispatchModel, EventModel, Stage};
use crate::error::ErrorModel;
use crate::notification::{Flow, NotificationModel};
use crate::plan::{
    all_acknowledged, bulk_plan, data_part, delete_plan, failures, update_plan, verdict,
};
use crate::profile::{documents, json_array, ProfileModel};
use crate::request::{under, BodyModel, Method, ReplyModel, Target};
use crate::settings::Endpoints;
use crate::updater::{delete_started, send_profile_started, update_batch_started, update_started};
use vstd::prelude::*;

verus! {

/// The number of services a deletion calls: the org chart, the search index
/// and the picture store, and the groups service where it is configured.
pub open spec fn deletions(dp: Endpoints) -> nat {
    if dp.groups_delete is Some {
        4
    } else {
        3
    }
}

/// The number of services a push calls: the org chart and the search
/// index, and the groups service where it is configured for pushes of this
/// kind.
pub open spec fn pushes(groups: Option<Seq<char>>) -> nat {
    if groups is Some {
        3
    } else {
        2
    }
}

/// A deletion whose internal identifier is found calls each of its
/// services once, below the service's endpoint at that identifier, by
/// `POST` and without a body (the groups service by `DELETE`), and nothing
/// else.
pub proof fn deletion_calls_every_service_once(dp: Endpoints, n: NotificationModel, uuid: Seq<char>)
    ensures
        ({
            let (waiting, first) = delete_started(dp, n);
            let (sending, turn) = transition(dp, waiting, EventModel::Uuid(Some(uuid)));
            let plan = delete_plan(dp, uuid);
            &&& first == ActionModel::Resolve(under(dp.uuid_by_user_id, n.id))
            &&& turn.action == ActionModel::Send(plan)
            &&& turn.failures.len() == 0
            &&& sending.stage == Stage::Sending
            &&& sending.pending.len() == plan.len()
            &&& plan.len() == deletions(dp)
            &&& forall|i: int| 0 <= i < plan.len() ==> (#[trigger] plan[i]).body == BodyModel::Empty
            &&& plan[0].target == Target::Orgchart && plan[0].method == Method::Post
                && plan[0].url == under(dp.orgchart_delete, uuid)
            &&& plan[1].target == Target::Search && plan[1].method == Method::Post && plan[1].url
                == under(dp.search_delete, uuid)
            &&& plan[2].target == Target::Pictures && plan[2].method == Method::Post
                && plan[2].url == under(dp.picture_delete, uuid)
            &&& dp.groups_delete is Some ==> plan[3].target == Target::Groups && plan[3].method
                == Method::Delete && plan[3].url == under(dp.groups_delete->0, uuid)
        }),
{
}

/// A deletion ends with the replies to its calls: in success where every
/// one of them is an acknowledgement, in `Other` where any one is not.
pub proof fn deletion_needs_every_acknowledgement(
    dp: Endpoints,
    n: NotificationModel,
    uuid: Seq<char>,
    replies: Seq<ReplyModel>,
)
    requires
        replies.len() == deletions(dp),
    ensures
        ({
            let (waiting, _) = delete_started(dp, n);
            let (sending, _) = transition(dp, waiting, EventModel::Uuid(Some(uuid)));
            let (ended, turn) = transition(dp, sending, EventModel::Replies(replies));
            &&& ended.stage == Stage::Finished
            &&& all_acknowledged(replies) ==> turn.action == ActionModel::Finish(Ok(()))
                && turn.failures.len() == 0
            &&& !all_acknowledged(replies) ==> turn.action == ActionModel::Finish(
                Err(ErrorModel::Other),
            ) && turn.failures.len() > 0
        }),
{
    let (waiting, _) = delete_started(dp, n);
    let (sending, _) = transition(dp, waiting, EventModel::Uuid(Some(uuid)));
    crate::plan::no_failures_iff_all_acknowledged(Flow::Delete, sending.pending, replies);
}

/// A deletion whose internal identifier is not found, because the lookup
/// knows none or because it failed, ends at once in `IdResolution`: no call
/// is made.
pub proof fn deletion_without_identifier_calls_nothing(
    dp: Endpoints,
    n: NotificationModel,
    answer: EventModel,
)
    requires
        answer == EventModel::Uuid(None) || answer is Failed,
    ensures
        ({
            let (waiting, _) = delete_started(dp, n);
            let (ended, turn) = transition(dp, waiting, answer);
            &&& turn.action == ActionModel::Finish(Err(ErrorModel::IdResolution))
            &&& turn.failures.len() == 0
            &&& ended.stage == Stage::Finished
        }),
{
}

/// A dispatch that is over stays over: whatever it is told, it makes no
/// call.
pub proof fn nothing_follows_the_end(dp: Endpoints, ended: DispatchModel, event: EventModel)
    requires
        ended.stage == Stage::Finished,
    ensures
        ({
            let (after, turn) = transition(dp, ended, event);
            &&& after.stage == Stage::Finished
            &&& turn.action is Finish
        }),
{
}

/// A push whose profile is not among the active ones falls back on the
/// inactive ones: the profile found there is the one that is sent, to the
/// same services as an active one would be, and the failed first attempt
/// is no error.
pub proof fn inactive_profile_is_pushed(
    dp: Endpoints,
    n: NotificationModel,
    why: Seq<char>,
    profile: ProfileModel,
)
    ensures
        ({
            let (waiting, first) = update_started(n);
            let (again, second) = transition(dp, waiting, EventModel::Failed(why));
            let (sending, third) = transition(dp, again, EventModel::Profile(profile));
            let plan = update_plan(dp, profile.document);
            &&& first == ActionModel::FetchActive(n.id)
            &&& second.action == ActionModel::FetchInactive(n.id)
            &&& second.failures.len() == 0
            &&& third.action == ActionModel::Send(plan)
            &&& third.failures.len() == 0
            &&& sending.stage == Stage::Sending
            &&& transition(dp, waiting, EventModel::Profile(profile)) == (sending, third)
            &&& plan.len() == pushes(dp.groups_update)
            &&& forall|i: int| 0 <= i < plan.len() ==> (#[trigger] plan[i]).body == BodyModel::Json(
                profile.document,
            ) && plan[i].method == Method::Post
        }),
{
}

/// A push whose profile is neither among the active nor among the inactive
/// ones ends in `ProfileSource`, with the complaint of the second attempt;
/// no call is made.
pub proof fn missing_profile_calls_nothing(
    dp: Endpoints,
    n: NotificationModel,
    first_why: Seq<char>,
    second_why: Seq<char>,
)
    ensures
        ({
            let (waiting, _) = update_started(n);
            let (again, _) = transition(dp, waiting, EventModel::Failed(first_why));
            let (ended, turn) = transition(dp, again, EventModel::Failed(second_why));
            &&& turn.action == ActionModel::Finish(Err(ErrorModel::ProfileSource(second_why)))
            &&& ended.stage == Stage::Finished
        }),
{
}

/// A push ends with the replies to its calls: in success where every one
/// of them is an acknowledgement, in `Other` where any one is not.
pub proof fn push_needs_every_acknowledgement(
    dp: Endpoints,
    profile: ProfileModel,
    replies: Seq<ReplyModel>,
)
    requires
        replies.len() == pushes(dp.groups_update),
    ensures
        ({
            let (sending, first) = send_profile_started(dp, profile);
            let (ended, turn) = transition(dp, sending, EventModel::Replies(replies));
            &&& first == ActionModel::Send(update_plan(dp, profile.document))
            &&& ended.stage == Stage::Finished
            &&& turn.action == ActionModel::Finish(verdict(replies))
            &&& turn.failures == failures(Flow::Upsert, sending.pending, replies)
            &&& all_acknowledged(replies) <==> turn.failures.len() == 0
        }),
{
    let (sending, _) = send_profile_started(dp, profile);
    crate::plan::no_failures_iff_all_acknowledged(Flow::Upsert, sending.pending, replies);
}

/// In a full re-sync every page is sent as one form part named `data`, with
/// the file name `data` and the type `application/json`, that holds the
/// page's documents as a JSON array; it goes by `POST` to the bulk endpoint
/// of the org chart, of the search index and, where configured, of the
/// groups service.
pub proof fn page_goes_out_as_one_part(dp: Endpoints, paging: DispatchModel, page: Seq<ProfileModel>)
    requires
        paging.stage == Stage::Paging,
    ensures
        ({
            let (sending, turn) = transition(dp, paging, EventModel::Page(page));
            let text = json_array(documents(page));
            let plan = bulk_plan(dp, text);
            &&& turn.action == ActionModel::Send(plan)
            &&& sending.stage == Stage::Sending
            &&& sending.pending.len() == plan.len()
            &&& plan.len() == pushes(dp.groups_bulk)
            &&& forall|i: int| 0 <= i < plan.len() ==> (#[trigger] plan[i]).body == BodyModel::Form(
                data_part(text),
            ) && plan[i].method == Method::Post
            &&& data_part(text).name == "data"@
            &&& plan[0].target == Target::Orgchart && plan[0].url == dp.orgchart_bulk
            &&& plan[1].target == Target::Search && plan[1].url == dp.search_bulk
            &&& dp.groups_bulk is Some ==> plan[2].target == Target::Groups && plan[2].url
                == dp.groups_bulk->0
        }),
{
}

/// In a full re-sync no page holds up the next: whatever the replies to a
/// page's calls, and also where the page could not be had or its calls
/// could not be made, the dispatch asks for the next page and is again as
/// it was before the page.
pub proof fn failed_page_does_not_stop_the_sync(
    dp: Endpoints,
    paging: DispatchModel,
    page: Seq<ProfileModel>,
    replies: Seq<ReplyModel>,
    why: Seq<char>,
)
    requires
        paging.flow == Flow::Bulk,
        paging.stage == Stage::Paging,
        paging.pending.len() == 0,
        replies.len() == pushes(dp.groups_bulk),
    ensures
        ({
            let (sending, _) = transition(dp, paging, EventModel::Page(page));
            let (after, turn) = transition(dp, sending, EventModel::Replies(replies));
            let (skipped, next) = transition(dp, sending, EventModel::Failed(why));
            &&& turn.action == ActionModel::NextPage
            &&& turn.failures == failures(Flow::Bulk, sending.pending, replies)
            &&& after == paging
            &&& next.action == ActionModel::NextPage
            &&& skipped == paging
        }),
        transition(dp, paging, EventModel::Failed(why)).0 == paging,
        transition(dp, paging, EventModel::Failed(why)).1.action == ActionModel::NextPage,
{
    assert(paging.pending =~= Seq::<Target>::empty());
}

/// A full re-sync asks for the first page once the source is open, and
/// ends in success when the source has no more pages, however the pages
/// before fared. A source that does not open ends it in `ProfileSource`.
pub proof fn sync_runs_to_the_last_page(dp: Endpoints, why: Seq<char>)
    ensures
        ({
            let (opening, first) = update_batch_started();
            let (paging, second) = transition(dp, opening, EventModel::Pages);
            let (ended, last) = transition(dp, paging, EventModel::NoMorePages);
            let (refused, early) = transition(dp, opening, EventModel::Failed(why));
            &&& first == ActionModel::OpenPages
            &&& second.action == ActionModel::NextPage
            &&& paging.flow == Flow::Bulk && paging.stage == Stage::Paging && paging.pending.len()
                == 0
            &&& last.action == ActionModel::Finish(Ok(()))
            &&& ended.stage == Stage::Finished
            &&& early.action == ActionModel::Finish(Err(ErrorModel::ProfileSource(why)))
            &&& refused.stage == Stage::Finished
        }),
{
}

} // verus!
