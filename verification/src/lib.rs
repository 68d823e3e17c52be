//! The decision core of a relay that keeps downstream services (an org
//! chart, a search index, a groups service and a picture store) in step
//! with an authoritative source of user profiles.
//!
//! The relay itself stores nothing. It is told of changes, one profile at a
//! time or all at once, and passes the current state of each profile on to
//! every configured service. This crate holds what the relay decides: which
//! flow a message takes ([`updater`]), which calls a flow makes ([`plan`]),
//! how a flow goes on after each answer from outside ([`dispatch`]), and
//! what the flows come to as a whole ([`flows`]). It makes no call itself:
//! whoever drives it performs the actions it names.

pub mod auth;
pub mod bulk;
pub mod dispatch;
pub mod error;
pub mod events;
pub mod flows;
pub mod internal;
pub mod notification;
pub mod plan;
pub mod profile;
pub mod request;
pub mod response;
pub mod settings;
pub mod text;
pub mod updater;
