//! What the relay answers to those who call it.

use crate::updater::{MessageModel, UpdateMessage};
use vstd::prelude::*;
use vstd::string::*;

verus! {

/// An answer to an inbound call: a status code, and a body with its type.
#[derive(Clone, Debug, PartialEq, Eq)]
pub struct Response {
    pub status: u16,
    pub content_type: String,
    pub body: String,
}

/// A [`Response`] as plain text.
pub struct ResponseModel {
    pub status: u16,
    pub content_type: Seq<char>,
    pub body: Seq<char>,
}

impl DeepView for Response {
    type V = ResponseModel;

    open spec fn deep_view(&self) -> ResponseModel {
        ResponseModel {
            status: self.status,
            content_type: self.content_type@,
            body: self.body@,
        }
    }
}

/// The answer to a call that was taken: status 200 and an empty JSON
/// object.
pub open spec fn accepted() -> ResponseModel {
    ResponseModel { status: 200, content_type: "application/json"@, body: "{}"@ }
}

/// The answer to a call that failed: status 500 and the error's message as
/// plain text.
pub open spec fn failed(message: Seq<char>) -> ResponseModel {
    ResponseModel { status: 500, content_type: "text/plain; charset=utf-8"@, body: message }
}

/// What becomes of an inbound call that is taken: a message for the
/// dispatcher's queue, and the answer to the caller.
#[derive(Clone, Debug, PartialEq, Eq)]
pub struct Reception {
    pub message: UpdateMessage,
    pub response: Response,
}

/// A [`Reception`] as plain values.
pub struct ReceptionModel {
    pub message: MessageModel,
    pub response: ResponseModel,
}

impl DeepView for Reception {
    type V = ReceptionModel;

    open spec fn deep_view(&self) -> ReceptionModel {
        ReceptionModel {
            message: self.message.deep_view(),
            response: self.response.deep_view(),
        }
    }
}

/// The reception of a call that puts `message` on the queue: the caller is
/// told at once that the call was taken.
pub open spec fn queued(message: MessageModel) -> ReceptionModel {
    ReceptionModel { message, response: accepted() }
}

impl Response {
    /// The answer to a call that was taken.
    pub fn accepted() -> (response: Response)
        ensures
            response.deep_view() == accepted(),
    {
        Response {
            status: 200,
            content_type: String::from_str("application/json"),
            body: String::from_str("{}"),
        }
    }

    /// The answer to a call that failed with `message`.
    pub fn failed(message: String) -> (response: Response)
        ensures
            response.deep_view() == failed(message@),
    {
        Response {
            status: 500,
            content_type: String::from_str("text/plain; charset=utf-8"),
            body: message,
        }
    }
}

} // verus!
