//! Change notifications and the flow each one takes.

use crate::text::same_text;
use vstd::prelude::*;

verus! {

/// What happened to a profile at the source.
#[derive(Clone, Copy, Debug, PartialEq, Eq, Structural)]
pub enum Operation {
    Create,
    Update,
    Delete,
    /// Sent by the source in place of `Delete`, under the name `foxy`;
    /// handled as a deletion.
    Unknown,
}

/// The path a piece of work takes through the relay.
#[derive(Clone, Copy, Debug, PartialEq, Eq, Structural)]
pub enum Flow {
    /// Look the profile's internal identifier up, then delete it everywhere.
    Delete,
    /// Get the profile from the source, then push it everywhere.
    Upsert,
    /// Push every profile of the source, page by page.
    Bulk,
}

/// The operation that goes by `name` on the wire, if there is one.
pub open spec fn operation_named(name: Seq<char>) -> Option<Operation> {
    if name == "create"@ {
        Some(Operation::Create)
    } else if name == "update"@ {
        Some(Operation::Update)
    } else if name == "delete"@ {
        Some(Operation::Delete)
    } else if name == "foxy"@ {
        Some(Operation::Unknown)
    } else {
        None
    }
}

impl Operation {
    /// The flow that handles this operation: deletion for `Delete` and
    /// `Unknown`, upsert for `Create` and `Update`.
    pub open spec fn spec_flow(self) -> Flow {
        match self {
            Operation::Delete | Operation::Unknown => Flow::Delete,
            Operation::Create | Operation::Update => Flow::Upsert,
        }
    }

    /// The name of this operation on the wire.
    pub open spec fn spec_name(self) -> Seq<char> {
        match self {
            Operation::Create => "create"@,
            Operation::Update => "update"@,
            Operation::Delete => "delete"@,
            Operation::Unknown => "foxy"@,
        }
    }

    /// The flow that handles this operation. Every operation has exactly
    /// one, and it is never the bulk flow.
    pub fn flow(&self) -> (flow: Flow)
        ensures
            flow == self.spec_flow(),
            flow == Flow::Delete || flow == Flow::Upsert,
            flow == Flow::Delete <==> (*self == Operation::Delete || *self == Operation::Unknown),
    {
        match self {
            Operation::Delete | Operation::Unknown => Flow::Delete,
            Operation::Create | Operation::Update => Flow::Upsert,
        }
    }

    /// The name of this operation on the wire.
    pub fn name(&self) -> (name: &'static str)
        ensures
            name@ == self.spec_name(),
    {
        match self {
            Operation::Create => "create",
            Operation::Update => "update",
            Operation::Delete => "delete",
            Operation::Unknown => "foxy",
        }
    }

    /// Reads an operation from its name on the wire. Names are matched as
    /// they are written: `create`, `update`, `delete` and `foxy`; anything
    /// else is no operation.
    pub fn from_name(name: &str) -> (operation: Option<Operation>)
        ensures
            operation == operation_named(name@),
    {
        if same_text(name, "create") {
            Some(Operation::Create)
        } else if same_text(name, "update") {
            Some(Operation::Update)
        } else if same_text(name, "delete") {
            Some(Operation::Delete)
        } else if same_text(name, "foxy") {
            Some(Operation::Unknown)
        } else {
            None
        }
    }
}

/// Reading an operation's wire name gives the operation back.
pub proof fn name_round_trip(operation: Operation)
    ensures
        operation_named(operation.spec_name()) == Some(operation),
{
    reveal_strlit("create");
    reveal_strlit("update");
    reveal_strlit("delete");
    reveal_strlit("foxy");
    assert("create"@.len() == 6 && "create"@[0] == 'c');
    assert("update"@.len() == 6 && "update"@[0] == 'u');
    assert("delete"@.len() == 6 && "delete"@[0] == 'd');
    assert("foxy"@.len() == 4);
}

/// A name that reads as an operation is that operation's wire name.
pub proof fn named_operation_has_that_name(name: Seq<char>)
    requires
        operation_named(name) is Some,
    ensures
        operation_named(name)->0.spec_name() == name,
{
}

/// One change of one profile at the source.
#[derive(Clone, Debug, PartialEq, Eq)]
pub struct Notification {
    pub operation: Operation,
    /// The profile's identifier at the source.
    pub id: String,
    /// When the change happened, in seconds since the epoch: the bits of the
    /// 64-bit float that the source sent. Carried along, never interpreted.
    pub time: u64,
}

/// A [`Notification`] as plain text.
pub struct NotificationModel {
    pub operation: Operation,
    pub id: Seq<char>,
    pub time: u64,
}

impl DeepView for Notification {
    type V = NotificationModel;

    open spec fn deep_view(&self) -> NotificationModel {
        NotificationModel { operation: self.operation, id: self.id@, time: self.time }
    }
}

} // verus!
