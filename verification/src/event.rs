//! The events a callback can be registered for, and how the driver's
//! kinds of change map onto them.
use vstd::prelude::*;
use crate::outside::{operation_kind, operation_kind_of};

verus! {

/// The kinds of change in a collection that callbacks are registered for.
#[derive(Debug, PartialEq, Eq, Structural, Hash, Clone, Copy)]
pub enum Event {
    /// A document was inserted.
    Insert,
    /// A document was updated.
    Update,
    /// A document was deleted.
    Delete,
}

/// The kinds of change that a MongoDB change stream reports, one for each
/// variant of the driver's `OperationType`.
#[derive(Debug)]
pub enum OperationKind {
    Insert,
    Update,
    Replace,
    Delete,
    Drop,
    Rename,
    DropDatabase,
    Invalidate,
    /// A kind the driver reports by its name only.
    Other(String),
    /// A kind this version of the driver does not list.
    Unrecognized,
}

/// The name of an event, as used in log lines.
pub open spec fn event_name(e: Event) -> Seq<char> {
    match e {
        Event::Insert => "insert"@,
        Event::Update => "update"@,
        Event::Delete => "delete"@,
    }
}

/// The event a kind of change is handled as: inserts, updates and deletes
/// as themselves, every other kind as an insert.
pub open spec fn event_of_kind(kind: OperationKind) -> Event {
    match kind {
        OperationKind::Update => Event::Update,
        OperationKind::Delete => Event::Delete,
        _ => Event::Insert,
    }
}

/// Different events have different names.
pub proof fn lemma_event_names_distinct(a: Event, b: Event)
    requires
        a != b,
    ensures
        event_name(a) != event_name(b),
{
    reveal_strlit("insert");
    reveal_strlit("update");
    reveal_strlit("delete");
    assert(event_name(a)[0] != event_name(b)[0]);
}

impl Event {
    /// Returns the name of the event: `"insert"`, `"update"` or `"delete"`.
    pub fn event_type_str(&self) -> (name: &'static str)
        ensures
            name@ == event_name(*self),
    {
        match self {
            Event::Insert => "insert",
            Event::Update => "update",
            Event::Delete => "delete",
        }
    }

    /// The event a kind of change is handled as. Kinds other than insert,
    /// update and delete are handled as inserts.
    pub fn from_operation_kind(kind: &OperationKind) -> (event: Event)
        ensures
            event == event_of_kind(*kind),
    {
        match kind {
            OperationKind::Update => Event::Update,
            OperationKind::Delete => Event::Delete,
            _ => Event::Insert,
        }
    }

    /// The event a change reported by the driver is handled as.
    pub fn from(op_type: mongodb::change_stream::event::OperationType) -> (event: Event)
        ensures
            event == event_of_kind(operation_kind_of(op_type)),
    {
        let kind = operation_kind(op_type);
        Event::from_operation_kind(&kind)
    }
}

} // verus!
