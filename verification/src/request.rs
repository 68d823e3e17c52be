//! The calls the relay makes to downstream services, as plain data, and the
//! replies it gets back.

use vstd::prelude::*;
use vstd::string::*;

verus! {

/// A downstream service.
#[derive(Clone, Copy, Debug, PartialEq, Eq, Structural)]
pub enum Target {
    Orgchart,
    Search,
    Groups,
    Pictures,
}

/// The HTTP verb of a call.
#[derive(Clone, Copy, Debug, PartialEq, Eq, Structural)]
pub enum Method {
    Get,
    Post,
    Delete,
}

/// The single part of a `multipart/form-data` body.
#[derive(Clone, Debug, PartialEq, Eq)]
pub struct Part {
    pub name: String,
    pub file_name: String,
    pub mime: String,
    pub text: String,
}

/// What a call carries.
#[derive(Clone, Debug, PartialEq, Eq)]
pub enum Body {
    /// Nothing.
    Empty,
    /// A JSON document, sent as `application/json`.
    Json(String),
    /// A form with one part, sent as `multipart/form-data`.
    Form(Part),
}

/// One call to a downstream service.
#[derive(Clone, Debug, PartialEq, Eq)]
pub struct Request {
    pub target: Target,
    pub method: Method,
    pub url: String,
    pub body: Body,
}

/// How one call ended.
#[derive(Clone, Debug, PartialEq, Eq)]
pub enum Reply {
    /// The service answered with this status code.
    Status(u16),
    /// No answer came back; the text says why.
    Failed(String),
}

/// A [`Part`] as plain text.
pub struct PartModel {
    pub name: Seq<char>,
    pub file_name: Seq<char>,
    pub mime: Seq<char>,
    pub text: Seq<char>,
}

/// A [`Body`] as plain text.
pub enum BodyModel {
    Empty,
    Json(Seq<char>),
    Form(PartModel),
}

/// A [`Request`] as plain text.
pub struct RequestModel {
    pub target: Target,
    pub method: Method,
    pub url: Seq<char>,
    pub body: BodyModel,
}

/// A [`Reply`] as plain text.
pub enum ReplyModel {
    Status(u16),
    Failed(Seq<char>),
}

impl DeepView for Part {
    type V = PartModel;

    open spec fn deep_view(&self) -> PartModel {
        PartModel {
            name: self.name@,
            file_name: self.file_name@,
            mime: self.mime@,
            text: self.text@,
        }
    }
}

impl DeepView for Body {
    type V = BodyModel;

    open spec fn deep_view(&self) -> BodyModel {
        match self {
            Body::Empty => BodyModel::Empty,
            Body::Json(text) => BodyModel::Json(text@),
            Body::Form(part) => BodyModel::Form(part.deep_view()),
        }
    }
}

impl DeepView for Request {
    type V = RequestModel;

    open spec fn deep_view(&self) -> RequestModel {
        RequestModel {
            target: self.target,
            method: self.method,
            url: self.url@,
            body: self.body.deep_view(),
        }
    }
}

impl DeepView for Reply {
    type V = ReplyModel;

    open spec fn deep_view(&self) -> ReplyModel {
        match self {
            Reply::Status(code) => ReplyModel::Status(*code),
            Reply::Failed(why) => ReplyModel::Failed(why@),
        }
    }
}

impl ReplyModel {
    /// A call is acknowledged when the service answered with a 2xx status.
    pub open spec fn acknowledged(self) -> bool {
        match self {
            ReplyModel::Status(code) => 200 <= code < 300,
            ReplyModel::Failed(_) => false,
        }
    }
}

impl Reply {
    /// Whether the service acknowledged the call: it answered, and with a
    /// 2xx status.
    pub fn acknowledged(&self) -> (yes: bool)
        ensures
            yes == self.deep_view().acknowledged(),
    {
        match self {
            Reply::Status(code) => 200 <= *code && *code < 300,
            Reply::Failed(_) => false,
        }
    }
}

/// `base`, a slash, then `tail`.
pub open spec fn under(base: Seq<char>, tail: Seq<char>) -> Seq<char> {
    base + seq!['/'] + tail
}

/// The address of `tail` below `base`: the two joined by a slash.
pub fn join(base: &str, tail: &str) -> (url: String)
    ensures
        url@ == under(base@, tail@),
{
    proof {
        reveal_strlit("/");
    }
    let mut url = String::from_str(base);
    url.append("/");
    url.append(tail);
    assert("/"@ =~= seq!['/']);
    url
}

} // verus!
