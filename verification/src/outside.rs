//! Declarations of the outside types that the library carries, and the
//! calls it makes into the MongoDB driver and tokio, with what is assumed of them.
use vstd::prelude::*;
use mongodb::change_stream::event::OperationType;
use crate::event::OperationKind;

verus! {

/// The driver's kind of change in a change-stream notification.
#[verifier::external_type_specification]
#[verifier::external_body]
pub struct ExOperationType(OperationType);

/// The kind of a driver `OperationType`, as the library's own enum.
pub uninterp spec fn operation_kind_of(op: OperationType) -> OperationKind;

/// Tells apart the variants of the driver's
/// `mongodb::change_stream::event::OperationType`, one arm each, moving the
/// name that `Other` carries. Claimed: the result depends on the argument
/// alone (it is `operation_kind_of` of the argument). Not stated: which
/// variant maps to which, as Verus does not see inside the driver's enum.
#[verifier::external_body]
pub(crate) fn operation_kind(op: OperationType) -> (kind: OperationKind)
    ensures
        kind == operation_kind_of(op),
{
    match op {
        OperationType::Insert => OperationKind::Insert,
        OperationType::Update => OperationKind::Update,
        OperationType::Replace => OperationKind::Replace,
        OperationType::Delete => OperationKind::Delete,
        OperationType::Drop => OperationKind::Drop,
        OperationType::Rename => OperationKind::Rename,
        OperationType::DropDatabase => OperationKind::DropDatabase,
        OperationType::Invalidate => OperationKind::Invalidate,
        OperationType::Other(name) => OperationKind::Other(name),
        _ => OperationKind::Unrecognized,
    }
}

} // verus!

verus! {

/// The driver's error type.
#[verifier::external_type_specification]
#[verifier::external_body]
pub struct ExMongoError(mongodb::error::Error);

/// tokio's error for a send on a closed channel.
#[verifier::external_type_specification]
#[verifier::external_body]
#[verifier::reject_recursive_types(T)]
pub struct ExSendError<T>(tokio::sync::mpsc::error::SendError<T>);

/// Whether `text` is one of the display texts the driver error can produce.
/// It is a relation, not a function: the text lists the error's labels in
/// the order of a hash set, which differs between processes.
pub uninterp spec fn is_mongodb_error_text(error: mongodb::error::Error, text: Seq<char>) -> bool;

/// The display text of a driver error (`Display` of `mongodb::error::Error`).
/// Claimed: the text is a display text of this error
/// (`is_mongodb_error_text`). The driver's source writes it as
/// `"Kind: {kind}, labels: {labels:?}"`, so every text begins with
/// `"Kind: "` and ends with the `'}'` that closes the label set. Not stated:
/// which of the error's texts comes back; the labels come from a hash set,
/// whose order differs between processes.
#[verifier::external_body]
pub(crate) fn mongodb_error_text(error: &mongodb::error::Error) -> (text: String)
    ensures
        is_mongodb_error_text(*error, text@),
        "Kind: "@.is_prefix_of(text@),
        text@.last() == '}',
{
    format!("{}", error)
}

/// The display text of tokio's `SendError` (`Display` of
/// `tokio::sync::mpsc::error::SendError`), which its source writes as the
/// fixed text "channel closed".
#[verifier::external_body]
pub(crate) fn send_error_text(error: &tokio::sync::mpsc::error::SendError<()>) -> (text: String)
    ensures
        text@ == "channel closed"@,
{
    format!("{}", error)
}

} // verus!

verus! {

/// A handle on a MongoDB database, carried through unopened.
#[verifier::external_type_specification]
#[verifier::external_body]
pub struct ExDatabase(mongodb::Database);

/// The sending half of a tokio channel, carried through unopened.
#[verifier::external_type_specification]
#[verifier::external_body]
#[verifier::reject_recursive_types(T)]
pub struct ExSender<T>(tokio::sync::mpsc::Sender<T>);

} // verus!
