//! The first look at an inbound call: is there a bearer token to check?

use crate::auth::check::ValidationOptions;
use crate::text::same_text;
use vstd::prelude::*;
use vstd::string::*;

verus! {

/// The token of an `Authorization` header: what follows the scheme
/// `Bearer` and one space. A header that does not begin so has none.
pub open spec fn bearer_token(header: Seq<char>) -> Option<Seq<char>> {
    if header.len() >= 7 && header.subrange(0, 7) == "Bearer "@ {
        Some(header.subrange(7, header.len() as int))
    } else {
        None
    }
}

/// Takes the bearer token out of an `Authorization` header.
///
/// The header must begin with `Bearer` and one space, written just so; the
/// token is all that follows, possibly nothing.
pub fn get_token(auth_header: &str) -> (token: Option<&str>)
    ensures
        token.deep_view() == bearer_token(auth_header@),
{
    let length = auth_header.unicode_len();
    if length < 7 {
        return None;
    }
    let scheme = auth_header.substring_char(0, 7);
    if same_text(scheme, "Bearer ") {
        Some(auth_header.substring_char(7, length))
    } else {
        None
    }
}

/// What the first look at an inbound call comes to.
#[derive(Clone, Copy, Debug, PartialEq, Eq)]
pub enum Screening<'a> {
    /// Let the call through unchecked.
    Pass,
    /// Turn the call away as unauthorized.
    Reject,
    /// Verify this token and hold its claims against the options; let the
    /// call through only if both succeed.
    Check(&'a str),
}

/// A [`Screening`] as plain text.
pub enum ScreeningModel {
    Pass,
    Reject,
    Check(Seq<char>),
}

impl<'a> DeepView for Screening<'a> {
    type V = ScreeningModel;

    open spec fn deep_view(&self) -> ScreeningModel {
        match self {
            Screening::Pass => ScreeningModel::Pass,
            Screening::Reject => ScreeningModel::Reject,
            Screening::Check(token) => ScreeningModel::Check(token@),
        }
    }
}

/// What the first look at a call comes to, given its method and its
/// `Authorization` header, if it has a readable one.
///
/// A call with the method `OPTIONS` passes unchecked. Any other call needs
/// a header with a bearer token, and that token is to be checked.
pub open spec fn screened(method: Seq<char>, authorization: Option<Seq<char>>) -> ScreeningModel {
    if method == "OPTIONS"@ {
        ScreeningModel::Pass
    } else {
        match authorization {
            Some(header) => match bearer_token(header) {
                Some(token) => ScreeningModel::Check(token),
                None => ScreeningModel::Reject,
            },
            None => ScreeningModel::Reject,
        }
    }
}

/// The guard in front of the calls that announce changes.
#[derive(Clone, Debug, PartialEq, Eq)]
pub struct AuthMiddleware {
    /// What is asked of the claims of a token.
    pub validation_options: ValidationOptions,
}

impl AuthMiddleware {
    /// Takes the first look at an inbound call with this `method` and this
    /// `Authorization` header (none where the call has no such header, or
    /// one that is not text).
    pub fn start<'a>(&self, method: &str, authorization: Option<&'a str>) -> (screening: Screening<
        'a,
    >)
        ensures
            screening.deep_view() == screened(method@, authorization.deep_view()),
    {
        if same_text(method, "OPTIONS") {
            return Screening::Pass;
        }
        match authorization {
            Some(header) => match get_token(header) {
                Some(token) => Screening::Check(token),
                None => Screening::Reject,
            },
            None => Screening::Reject,
        }
    }
}

} // verus!
