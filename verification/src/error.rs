//! What can go wrong while a change is passed on.

use crate::request::{Reply, ReplyModel};
use vstd::prelude::*;
use vstd::string::*;

verus! {

/// Why a dispatch failed, or why one of its calls did.
///
/// The seven variants that name a service carry the reply that fell short
/// of an acknowledgement.
#[derive(Clone, Debug, PartialEq, Eq)]
pub enum UpdateError {
    OrgchartUpdate(Reply),
    SearchUpdate(Reply),
    GroupsUpdate(Reply),
    OrgchartDelete(Reply),
    SearchDelete(Reply),
    GroupsDelete(Reply),
    PicturesDelete(Reply),
    /// The internal identifier of a profile could not be found: the lookup
    /// failed, or it knew none.
    IdResolution,
    /// The profile source gave no profile; the text is its complaint.
    ProfileSource(String),
    /// At least one call of a fan-out was not acknowledged.
    Other,
}

/// An [`UpdateError`] as plain text.
pub enum ErrorModel {
    OrgchartUpdate(ReplyModel),
    SearchUpdate(ReplyModel),
    GroupsUpdate(ReplyModel),
    OrgchartDelete(ReplyModel),
    SearchDelete(ReplyModel),
    GroupsDelete(ReplyModel),
    PicturesDelete(ReplyModel),
    IdResolution,
    ProfileSource(Seq<char>),
    Other,
}

impl DeepView for UpdateError {
    type V = ErrorModel;

    open spec fn deep_view(&self) -> ErrorModel {
        match self {
            UpdateError::OrgchartUpdate(reply) => ErrorModel::OrgchartUpdate(reply.deep_view()),
            UpdateError::SearchUpdate(reply) => ErrorModel::SearchUpdate(reply.deep_view()),
            UpdateError::GroupsUpdate(reply) => ErrorModel::GroupsUpdate(reply.deep_view()),
            UpdateError::OrgchartDelete(reply) => ErrorModel::OrgchartDelete(reply.deep_view()),
            UpdateError::SearchDelete(reply) => ErrorModel::SearchDelete(reply.deep_view()),
            UpdateError::GroupsDelete(reply) => ErrorModel::GroupsDelete(reply.deep_view()),
            UpdateError::PicturesDelete(reply) => ErrorModel::PicturesDelete(reply.deep_view()),
            UpdateError::IdResolution => ErrorModel::IdResolution,
            UpdateError::ProfileSource(why) => ErrorModel::ProfileSource(why@),
            UpdateError::Other => ErrorModel::Other,
        }
    }
}

/// The ten decimal digits, by value.
pub open spec fn digit(d: nat) -> char
    recommends
        d < 10,
{
    seq!['0', '1', '2', '3', '4', '5', '6', '7', '8', '9'][d as int]
}

/// `n` written in decimal, without leading zeros.
pub open spec fn decimal(n: nat) -> Seq<char>
    decreases n,
{
    if n < 10 {
        seq![digit(n)]
    } else {
        decimal(n / 10).push(digit(n % 10))
    }
}

impl ReplyModel {
    /// What a reply says in a message: the failure's own text, or the word
    /// `status` and the code.
    pub open spec fn describe(self) -> Seq<char> {
        match self {
            ReplyModel::Status(code) => "status "@ + decimal(code as nat),
            ReplyModel::Failed(why) => why,
        }
    }
}

impl ErrorModel {
    /// The sentence that reports this error.
    pub open spec fn message(self) -> Seq<char> {
        match self {
            ErrorModel::OrgchartUpdate(reply) => "error updating orgchart: "@ + reply.describe(),
            ErrorModel::SearchUpdate(reply) => "error updating search: "@ + reply.describe(),
            ErrorModel::GroupsUpdate(reply) => "error updating groups: "@ + reply.describe(),
            ErrorModel::OrgchartDelete(reply) => "error deleting from orgchart: "@
                + reply.describe(),
            ErrorModel::SearchDelete(reply) => "error deleting from search: "@ + reply.describe(),
            ErrorModel::GroupsDelete(reply) => "error deleting groups: "@ + reply.describe(),
            ErrorModel::PicturesDelete(reply) => "error deleting from pictures: "@
                + reply.describe(),
            ErrorModel::IdResolution => "error resolving uuid"@,
            ErrorModel::ProfileSource(why) => "error getting profile: "@ + why,
            ErrorModel::Other => "error updating"@,
        }
    }
}

/// One decimal digit as text.
fn digit_text(d: u16) -> (text: &'static str)
    requires
        d < 10,
    ensures
        text@ == seq![digit(d as nat)],
{
    proof {
        reveal_strlit("0");
        reveal_strlit("1");
        reveal_strlit("2");
        reveal_strlit("3");
        reveal_strlit("4");
        reveal_strlit("5");
        reveal_strlit("6");
        reveal_strlit("7");
        reveal_strlit("8");
        reveal_strlit("9");
    }
    let text = match d {
        0 => "0",
        1 => "1",
        2 => "2",
        3 => "3",
        4 => "4",
        5 => "5",
        6 => "6",
        7 => "7",
        8 => "8",
        _ => "9",
    };
    assert(text@ =~= seq![digit(d as nat)]);
    text
}

/// Writes `n` in decimal.
fn decimal_text(n: u16) -> (text: String)
    ensures
        text@ == decimal(n as nat),
    decreases n,
{
    if n < 10 {
        String::from_str(digit_text(n))
    } else {
        let mut text = decimal_text(n / 10);
        text.append(digit_text(n % 10));
        assert(text@ =~= decimal(n as nat));
        text
    }
}

impl Reply {
    /// What this reply says in a message: the failure's own text, or the
    /// word `status` and the status code in decimal.
    pub fn describe(&self) -> (text: String)
        ensures
            text@ == self.deep_view().describe(),
    {
        match self {
            Reply::Status(code) => {
                let mut text = String::from_str("status ");
                let number = decimal_text(*code);
                text.append(number.as_str());
                text
            },
            Reply::Failed(why) => why.clone(),
        }
    }
}

/// `lead` followed by what `reply` says.
fn lead_and_reply(lead: &str, reply: &Reply) -> (text: String)
    ensures
        text@ == lead@ + reply.deep_view().describe(),
{
    let mut text = String::from_str(lead);
    let tail = reply.describe();
    text.append(tail.as_str());
    text
}

impl UpdateError {
    /// The sentence that reports this error: which step failed, and for a
    /// failed call what its reply says.
    pub fn message(&self) -> (text: String)
        ensures
            text@ == self.deep_view().message(),
    {
        match self {
            UpdateError::OrgchartUpdate(reply) => lead_and_reply("error updating orgchart: ", reply),
            UpdateError::SearchUpdate(reply) => lead_and_reply("error updating search: ", reply),
            UpdateError::GroupsUpdate(reply) => lead_and_reply("error updating groups: ", reply),
            UpdateError::OrgchartDelete(reply) => lead_and_reply(
                "error deleting from orgchart: ",
                reply,
            ),
            UpdateError::SearchDelete(reply) => lead_and_reply(
                "error deleting from search: ",
                reply,
            ),
            UpdateError::GroupsDelete(reply) => lead_and_reply("error deleting groups: ", reply),
            UpdateError::PicturesDelete(reply) => lead_and_reply(
                "error deleting from pictures: ",
                reply,
            ),
            UpdateError::IdResolution => String::from_str("error resolving uuid"),
            UpdateError::ProfileSource(why) => {
                let mut text = String::from_str("error getting profile: ");
                text.append(why.as_str());
                text
            },
            UpdateError::Other => String::from_str("error updating"),
        }
    }
}

} // verus!
