//! Who may announce a change: the bearer token on an inbound call, and what
//! is asked of its claims.

pub mod check;
pub mod middleware;
