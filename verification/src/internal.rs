//! The inbound calls from inside: a profile to push now, and the request
//! for a full re-sync.

use crate::bulk::Bulk;
use crate::dispatch::outcome_model;
use crate::error::{ErrorModel, UpdateError};
use crate::response::{accepted, failed, queued, Reception, Response, ResponseModel};
use crate::updater::{MessageModel, UpdateMessage};
use vstd::prelude::*;

verus! {

/// The answer to a direct push that ended in `outcome`.
pub open spec fn answer_to(outcome: Result<(), ErrorModel>) -> ResponseModel {
    match outcome {
        Ok(_) => accepted(),
        Err(error) => failed(error.message()),
    }
}

/// Answers the caller of a direct push, once the push has ended.
///
/// This is the one call whose answer tells how the change fared: status 200
/// and an empty JSON object after a success, status 500 and the error's
/// message as plain text after a failure.
pub fn internal_update_event(outcome: &Result<(), UpdateError>) -> (response: Response)
    ensures
        response.deep_view() == answer_to(outcome_model(*outcome)),
{
    match outcome {
        Ok(_) => Response::accepted(),
        Err(error) => Response::failed(error.message()),
    }
}

/// Takes the request for a full re-sync: it goes on the queue, and the
/// caller is answered at once, always with status 200 and an empty JSON
/// object.
pub fn bulk_update(bulk: Bulk) -> (reception: Reception)
    ensures
        reception.deep_view() == queued(MessageModel::Bulk),
{
    Reception { message: UpdateMessage::Bulk(bulk), response: Response::accepted() }
}

} // verus!
