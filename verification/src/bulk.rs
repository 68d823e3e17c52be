//! The request for a full re-sync.

use vstd::prelude::*;

verus! {

/// Asks for every profile of the source to be pushed again. It carries
/// nothing: the request itself is the message.
#[derive(Clone, Copy, Debug, PartialEq, Eq, Structural)]
pub struct Bulk {}

} // verus!
