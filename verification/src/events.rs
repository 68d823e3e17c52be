//! The inbound call that announces a change.

use crate::notification::Notification;
use crate::response::{queued, Reception, Response};
use crate::updater::{MessageModel, UpdateMessage};
use vstd::prelude::*;

verus! {

/// Takes a notification: it goes on the queue as it is, and the caller is
/// answered at once.
///
/// The answer is always the same, status 200 and an empty JSON object. It
/// is given before anything is done about the notification, so it says
/// nothing of how the change fares downstream.
pub fn update_event(n: Notification) -> (reception: Reception)
    ensures
        reception.deep_view() == queued(MessageModel::Notification(n.deep_view())),
{
    Reception { message: UpdateMessage::Notification(n), response: Response::accepted() }
}

} // verus!
