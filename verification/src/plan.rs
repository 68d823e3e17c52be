//! Which calls a fan-out makes, and what their replies add up to.
//!
//! A fan-out sends the same change to every configured service at once. The
//! org chart and the search index are always among them; the groups service
//! only where its endpoint is configured; the picture store only for
//! deletions.

use crate::error::{ErrorModel, UpdateError};
use crate::notification::Flow;
use crate::request::{
    join, under, Body, BodyModel, Method, Part, PartModel, Reply, ReplyModel, Request,
    RequestModel, Target,
};
use crate::settings::{DinoParkSettings, Endpoints};
use vstd::prelude::*;
use vstd::string::*;

verus! {

/// The call to `target` at `url`, carrying `body`.
pub open spec fn call(target: Target, method: Method, url: Seq<char>, body: BodyModel)
    -> RequestModel {
    RequestModel { target, method, url, body }
}

/// The call to the groups service, where it is configured.
pub open spec fn groups_call(method: Method, url: Option<Seq<char>>, body: BodyModel) -> Seq<
    RequestModel,
> {
    match url {
        Some(url) => seq![call(Target::Groups, method, url, body)],
        None => Seq::empty(),
    }
}

/// The form part that carries a page of profiles.
pub open spec fn data_part(text: Seq<char>) -> PartModel {
    PartModel { name: "data"@, file_name: "data"@, mime: "application/json"@, text }
}

/// The calls that push one profile: its document goes as JSON to the org
/// chart, to the search index and, where configured, to the groups service.
pub open spec fn update_plan(dp: Endpoints, document: Seq<char>) -> Seq<RequestModel> {
    let body = BodyModel::Json(document);
    seq![
        call(Target::Orgchart, Method::Post, dp.orgchart_update, body),
        call(Target::Search, Method::Post, dp.search_update, body),
    ] + groups_call(Method::Post, dp.groups_update, body)
}

/// The calls that delete the profile with internal identifier `uuid`: one
/// to the org chart, the search index and the picture store each and, where
/// configured, one to the groups service, all addressed below the service's
/// endpoint by the identifier.
pub open spec fn delete_plan(dp: Endpoints, uuid: Seq<char>) -> Seq<RequestModel> {
    seq![
        call(Target::Orgchart, Method::Post, under(dp.orgchart_delete, uuid), BodyModel::Empty),
        call(Target::Search, Method::Post, under(dp.search_delete, uuid), BodyModel::Empty),
        call(Target::Pictures, Method::Post, under(dp.picture_delete, uuid), BodyModel::Empty),
    ] + groups_call(
        Method::Delete,
        match dp.groups_delete {
            Some(url) => Some(under(url, uuid)),
            None => None,
        },
        BodyModel::Empty,
    )
}

/// The calls that push one page of profiles: the encoded page goes as a
/// form part to the bulk endpoint of the org chart, of the search index
/// and, where configured, of the groups service.
pub open spec fn bulk_plan(dp: Endpoints, page: Seq<char>) -> Seq<RequestModel> {
    let body = BodyModel::Form(data_part(page));
    seq![
        call(Target::Orgchart, Method::Post, dp.orgchart_bulk, body),
        call(Target::Search, Method::Post, dp.search_bulk, body),
    ] + groups_call(Method::Post, dp.groups_bulk, body)
}

/// The services a plan calls, in order.
pub open spec fn targets_of(plan: Seq<RequestModel>) -> Seq<Target> {
    plan.map_values(|request: RequestModel| request.target)
}

/// The error that reports an unacknowledged call to `target` within `flow`.
/// The picture store is only ever called to delete.
pub open spec fn tagged(flow: Flow, target: Target, reply: ReplyModel) -> ErrorModel {
    match flow {
        Flow::Delete => match target {
            Target::Orgchart => ErrorModel::OrgchartDelete(reply),
            Target::Search => ErrorModel::SearchDelete(reply),
            Target::Groups => ErrorModel::GroupsDelete(reply),
            Target::Pictures => ErrorModel::PicturesDelete(reply),
        },
        Flow::Upsert | Flow::Bulk => match target {
            Target::Orgchart => ErrorModel::OrgchartUpdate(reply),
            Target::Search => ErrorModel::SearchUpdate(reply),
            Target::Groups => ErrorModel::GroupsUpdate(reply),
            Target::Pictures => ErrorModel::Other,
        },
    }
}

/// Whether every reply is an acknowledgement.
pub open spec fn all_acknowledged(replies: Seq<ReplyModel>) -> bool {
    forall|i: int| 0 <= i < replies.len() ==> (#[trigger] replies[i]).acknowledged()
}

/// The errors of a fan-out: in order, one for each reply that is no
/// acknowledgement, tagged with the service that the call went to.
pub open spec fn failures(flow: Flow, targets: Seq<Target>, replies: Seq<ReplyModel>) -> Seq<
    ErrorModel,
>
    decreases replies.len(),
{
    if replies.len() == 0 {
        Seq::empty()
    } else {
        let earlier = failures(flow, targets, replies.drop_last());
        if replies.last().acknowledged() {
            earlier
        } else {
            earlier.push(tagged(flow, targets[replies.len() - 1], replies.last()))
        }
    }
}

/// What a fan-out comes to: success where every call was acknowledged, one
/// combined error otherwise.
pub open spec fn verdict(replies: Seq<ReplyModel>) -> Result<(), ErrorModel> {
    if all_acknowledged(replies) {
        Ok(())
    } else {
        Err(ErrorModel::Other)
    }
}

/// A fan-out has no errors exactly when every call was acknowledged.
pub proof fn no_failures_iff_all_acknowledged(
    flow: Flow,
    targets: Seq<Target>,
    replies: Seq<ReplyModel>,
)
    ensures
        failures(flow, targets, replies).len() == 0 <==> all_acknowledged(replies),
        failures(flow, targets, replies).len() <= replies.len(),
    decreases replies.len(),
{
    if replies.len() > 0 {
        let earlier = replies.drop_last();
        no_failures_iff_all_acknowledged(flow, targets, earlier);
        if all_acknowledged(replies) {
            assert forall|i: int| 0 <= i < earlier.len() implies (#[trigger] earlier[i]).acknowledged() by {
                assert(earlier[i] == replies[i]);
            }
            assert(replies[replies.len() - 1].acknowledged());
        }
        if failures(flow, targets, replies).len() == 0 {
            assert(replies.last().acknowledged());
            assert forall|i: int| 0 <= i < replies.len() implies (#[trigger] replies[i]).acknowledged() by {
                if i < earlier.len() {
                    assert(earlier[i] == replies[i]);
                }
            }
        }
    }
}

/// One call.
fn request(target: Target, method: Method, url: String, body: Body) -> (request: Request)
    ensures
        request.deep_view() == call(target, method, url@, body.deep_view()),
{
    Request { target, method, url, body }
}

/// The calls that push one profile, given as its document.
pub fn plan_update(dp: &DinoParkSettings, document: &String) -> (plan: Vec<Request>)
    ensures
        plan.deep_view() == update_plan(dp.deep_view(), document@),
{
    let mut plan: Vec<Request> = Vec::new();
    plan.push(
        request(
            Target::Orgchart,
            Method::Post,
            dp.orgchart_update_endpoint.clone(),
            Body::Json(document.clone()),
        ),
    );
    plan.push(
        request(
            Target::Search,
            Method::Post,
            dp.search_update_endpoint.clone(),
            Body::Json(document.clone()),
        ),
    );
    if let Some(url) = &dp.groups_update_endpoint {
        plan.push(request(Target::Groups, Method::Post, url.clone(), Body::Json(document.clone())));
    }
    assert(plan.deep_view() =~= update_plan(dp.deep_view(), document@));
    plan
}

/// The calls that delete the profile with internal identifier `uuid`.
pub fn plan_delete(dp: &DinoParkSettings, uuid: &String) -> (plan: Vec<Request>)
    ensures
        plan.deep_view() == delete_plan(dp.deep_view(), uuid@),
{
    let mut plan: Vec<Request> = Vec::new();
    plan.push(
        request(
            Target::Orgchart,
            Method::Post,
            join(dp.orgchart_delete_endpoint.as_str(), uuid.as_str()),
            Body::Empty,
        ),
    );
    plan.push(
        request(
            Target::Search,
            Method::Post,
            join(dp.search_delete_endpoint.as_str(), uuid.as_str()),
            Body::Empty,
        ),
    );
    plan.push(
        request(
            Target::Pictures,
            Method::Post,
            join(dp.picture_delete_endpoint.as_str(), uuid.as_str()),
            Body::Empty,
        ),
    );
    if let Some(url) = &dp.groups_delete_endpoint {
        plan.push(
            request(Target::Groups, Method::Delete, join(url.as_str(), uuid.as_str()), Body::Empty),
        );
    }
    assert(plan.deep_view() =~= delete_plan(dp.deep_view(), uuid@));
    plan
}

/// The form part that carries `text` as a page of profiles.
fn page_part(text: &String) -> (part: Part)
    ensures
        part.deep_view() == data_part(text@),
{
    Part {
        name: String::from_str("data"),
        file_name: String::from_str("data"),
        mime: String::from_str("application/json"),
        text: text.clone(),
    }
}

/// The calls that push one page of profiles, given as its encoded text.
pub fn plan_bulk(dp: &DinoParkSettings, page: &String) -> (plan: Vec<Request>)
    ensures
        plan.deep_view() == bulk_plan(dp.deep_view(), page@),
{
    let mut plan: Vec<Request> = Vec::new();
    plan.push(
        request(
            Target::Orgchart,
            Method::Post,
            dp.orgchart_bulk_endpoint.clone(),
            Body::Form(page_part(page)),
        ),
    );
    plan.push(
        request(
            Target::Search,
            Method::Post,
            dp.search_bulk_endpoint.clone(),
            Body::Form(page_part(page)),
        ),
    );
    if let Some(url) = &dp.groups_bulk_endpoint {
        plan.push(request(Target::Groups, Method::Post, url.clone(), Body::Form(page_part(page))));
    }
    assert(plan.deep_view() =~= bulk_plan(dp.deep_view(), page@));
    plan
}

/// The services that `plan` calls, in order.
pub fn targets(plan: &Vec<Request>) -> (targets: Vec<Target>)
    ensures
        targets@ == targets_of(plan.deep_view()),
{
    let mut targets: Vec<Target> = Vec::new();
    let mut i: usize = 0;
    while i < plan.len()
        invariant
            i <= plan.len(),
            targets@ == targets_of(plan.deep_view()).take(i as int),
        decreases plan.len() - i,
    {
        targets.push(plan[i].target);
        assert(targets@ =~= targets_of(plan.deep_view()).take(i + 1));
        i += 1;
    }
    assert(targets@ =~= targets_of(plan.deep_view()));
    targets
}

/// The error that reports an unacknowledged call to `target` within `flow`.
fn tag(flow: Flow, target: Target, reply: Reply) -> (error: UpdateError)
    ensures
        error.deep_view() == tagged(flow, target, reply.deep_view()),
{
    match flow {
        Flow::Delete => match target {
            Target::Orgchart => UpdateError::OrgchartDelete(reply),
            Target::Search => UpdateError::SearchDelete(reply),
            Target::Groups => UpdateError::GroupsDelete(reply),
            Target::Pictures => UpdateError::PicturesDelete(reply),
        },
        Flow::Upsert | Flow::Bulk => match target {
            Target::Orgchart => UpdateError::OrgchartUpdate(reply),
            Target::Search => UpdateError::SearchUpdate(reply),
            Target::Groups => UpdateError::GroupsUpdate(reply),
            Target::Pictures => UpdateError::Other,
        },
    }
}

/// Collects the errors of a fan-out of `flow` whose calls went to
/// `targets` and were answered by `replies`, reply `i` answering call `i`:
/// in order, one error for each reply that is no acknowledgement, tagged
/// with the service.
pub(crate) fn collect_failures(
    flow: Flow,
    targets: &Vec<Target>,
    replies: Vec<Reply>,
) -> (errors: Vec<
    UpdateError,
>)
    requires
        targets.len() == replies.len(),
    ensures
        errors.deep_view() == failures(flow, targets@, replies.deep_view()),
        errors.len() == 0 <==> all_acknowledged(replies.deep_view()),
{
    let ghost all = replies.deep_view();
    let mut errors: Vec<UpdateError> = Vec::new();
    let mut replies = replies;
    let mut i: usize = 0;
    let n = replies.len();
    assert(all.take(0) =~= Seq::<ReplyModel>::empty());
    assert(errors.deep_view() =~= failures(flow, targets@, all.take(0)));
    while i < n
        invariant
            i <= n,
            n == replies.len(),
            n == targets.len(),
            all.len() == n,
            forall|j: int| i <= j < n ==> (#[trigger] replies[j]).deep_view() == all[j],
            errors.deep_view() == failures(flow, targets@, all.take(i as int)),
        decreases n - i,
    {
        let ghost before = errors.deep_view();
        if !replies[i].acknowledged() {
            let mut reply = Reply::Status(0);
            std::mem::swap(&mut reply, &mut replies[i]);
            errors.push(tag(flow, targets[i], reply));
        }
        proof {
            let upto = all.take(i + 1);
            assert(upto.drop_last() =~= all.take(i as int));
            assert(upto.last() == all[i as int]);
            assert(errors.deep_view() =~= failures(flow, targets@, upto));
        }
        i += 1;
    }
    proof {
        assert(all.take(n as int) =~= all);
        no_failures_iff_all_acknowledged(flow, targets@, all);
    }
    errors
}

} // verus!
