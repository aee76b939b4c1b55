//! What a running change stream does with each thing that reaches it.
//!
//! A stream first opens a watch on its collection. While it watches, it
//! hands each change that has a document to give to the handler of the
//! change's event, reopens the watch after an error, and stops when it is told to
//! close, when the watch ends, or when the watch cannot be (re)opened. The
//! caller waits for the inputs and carries out the actions.
use vstd::prelude::*;
use crate::callbacks::{Callbacks, Handler, callbacks_cloned, default_handlers};
use crate::stream::{MongoStreamState, after_add_callback, lemma_added_callback_is_registered, registered_or_default};
use crate::event::Event;

verus! {

/// Where a stream is in its life.
#[derive(Debug, PartialEq, Eq, Structural, Clone, Copy)]
pub enum WatchState {
    /// The watch on the collection is being opened for the first time.
    Opening,
    /// The watch is open and changes arrive.
    Watching,
    /// The watch failed and is being opened again.
    Reopening,
    /// The stream has stopped for good.
    Stopped,
}

/// Which documents a change notification carries.
#[derive(Debug, PartialEq, Eq, Structural, Clone, Copy)]
pub struct ChangeDocuments {
    /// The full document (inserts and replaces, and updates looked up).
    pub full: bool,
    /// The document as it was before the change, where the watch asks for it.
    pub pre_image: bool,
    /// The key of the changed document.
    pub key: bool,
}

/// The document a change's callback gets.
#[derive(Debug, PartialEq, Eq, Structural, Clone, Copy)]
pub enum DocumentSource {
    /// The change's full document.
    Full,
    /// The document as it was before the change.
    PreImage,
    /// The key of the changed document.
    Key,
}

/// The document a callback gets for a change handled as `event` that
/// carries `docs`: the full document when there is one; for updates and
/// deletes, which the driver gives no full document by default, the document
/// before the change, or else the key of the changed document; for any other
/// change without a full document, none, and no callback runs.
pub open spec fn document_for(event: Event, docs: ChangeDocuments) -> Option<DocumentSource> {
    if docs.full {
        Some(DocumentSource::Full)
    } else if event == Event::Update || event == Event::Delete {
        if docs.pre_image {
            Some(DocumentSource::PreImage)
        } else if docs.key {
            Some(DocumentSource::Key)
        } else {
            None
        }
    } else {
        None
    }
}

/// The document a callback gets for a change handled as `event` that
/// carries `docs`, if any; see `document_for`.
pub fn callback_document(event: Event, docs: ChangeDocuments) -> (source: Option<DocumentSource>)
    ensures
        source == document_for(event, docs),
{
    if docs.full {
        Some(DocumentSource::Full)
    } else if event == Event::Update || event == Event::Delete {
        if docs.pre_image {
            Some(DocumentSource::PreImage)
        } else if docs.key {
            Some(DocumentSource::Key)
        } else {
            None
        }
    } else {
        None
    }
}

/// What reaches a stream.
#[derive(Debug, PartialEq, Eq, Structural, Clone, Copy)]
pub enum WatchInput {
    /// The watch on the collection was opened.
    Opened,
    /// The watch on the collection could not be opened.
    OpenFailed,
    /// The signal to close the stream arrived.
    CloseSignal,
    /// A change handled as the given event arrived, carrying the given documents.
    Change { event: Event, documents: ChangeDocuments },
    /// The watch reported an error.
    StreamError,
    /// The watch ended.
    StreamEnded,
}

/// Why a stream stopped.
#[derive(Debug, PartialEq, Eq, Structural, Clone, Copy)]
pub enum StopReason {
    /// The watch could not be opened.
    OpenFailed,
    /// The stream was told to close.
    Closed,
    /// The watch ended.
    Ended,
    /// The watch could not be opened again after an error.
    ReopenFailed,
}

/// What a stream does next.
#[derive(Debug, PartialEq, Eq, Structural, Clone, Copy)]
pub enum WatchAction {
    /// Nothing: wait for the next input.
    Wait,
    /// Run the handler of the event on the given document of the change.
    Dispatch(Event, DocumentSource),
    /// Open the watch on the collection again.
    Reopen,
    /// Stop, for the given reason.
    Stop(StopReason),
}

/// The next state of a stream and its action, given its state, what
/// reached it and the handlers it runs with. Inputs that cannot reach a
/// stream in its state leave it as it is.
pub open spec fn watch_step<C>(
    state: WatchState,
    input: WatchInput,
    handlers: Map<Event, Handler<C>>,
) -> (WatchState, WatchAction) {
    match state {
        WatchState::Opening => match input {
            WatchInput::Opened => (WatchState::Watching, WatchAction::Wait),
            WatchInput::OpenFailed => (WatchState::Stopped, WatchAction::Stop(StopReason::OpenFailed)),
            _ => (WatchState::Opening, WatchAction::Wait),
        },
        WatchState::Watching => match input {
            WatchInput::CloseSignal => (WatchState::Stopped, WatchAction::Stop(StopReason::Closed)),
            WatchInput::Change { event, documents } => match document_for(event, documents) {
                Some(source) => if handlers.contains_key(event) {
                    (WatchState::Watching, WatchAction::Dispatch(event, source))
                } else {
                    (WatchState::Watching, WatchAction::Wait)
                },
                None => (WatchState::Watching, WatchAction::Wait),
            },
            WatchInput::StreamError => (WatchState::Reopening, WatchAction::Reopen),
            WatchInput::StreamEnded => (WatchState::Stopped, WatchAction::Stop(StopReason::Ended)),
            _ => (WatchState::Watching, WatchAction::Wait),
        },
        WatchState::Reopening => match input {
            WatchInput::Opened => (WatchState::Watching, WatchAction::Wait),
            WatchInput::OpenFailed => (WatchState::Stopped, WatchAction::Stop(StopReason::ReopenFailed)),
            _ => (WatchState::Reopening, WatchAction::Wait),
        },
        WatchState::Stopped => (WatchState::Stopped, WatchAction::Wait),
    }
}

/// Takes one step of a stream: its next state and what it does, given
/// its state, what reached it and the handlers it runs with.
pub fn step<C>(state: WatchState, input: &WatchInput, handlers: &Callbacks<C>) -> (next: (
    WatchState,
    WatchAction,
))
    ensures
        next == watch_step(state, *input, handlers@),
{
    match state {
        WatchState::Opening => match input {
            WatchInput::Opened => (WatchState::Watching, WatchAction::Wait),
            WatchInput::OpenFailed => (WatchState::Stopped, WatchAction::Stop(StopReason::OpenFailed)),
            _ => (WatchState::Opening, WatchAction::Wait),
        },
        WatchState::Watching => match input {
            WatchInput::CloseSignal => (WatchState::Stopped, WatchAction::Stop(StopReason::Closed)),
            WatchInput::Change { event, documents } => match callback_document(*event, *documents) {
                Some(source) => if handlers.contains_key(event) {
                    (WatchState::Watching, WatchAction::Dispatch(*event, source))
                } else {
                    (WatchState::Watching, WatchAction::Wait)
                },
                None => (WatchState::Watching, WatchAction::Wait),
            },
            WatchInput::StreamError => (WatchState::Reopening, WatchAction::Reopen),
            WatchInput::StreamEnded => (WatchState::Stopped, WatchAction::Stop(StopReason::Ended)),
            _ => (WatchState::Watching, WatchAction::Wait),
        },
        WatchState::Reopening => match input {
            WatchInput::Opened => (WatchState::Watching, WatchAction::Wait),
            WatchInput::OpenFailed => (WatchState::Stopped, WatchAction::Stop(StopReason::ReopenFailed)),
            _ => (WatchState::Reopening, WatchAction::Wait),
        },
        WatchState::Stopped => (WatchState::Stopped, WatchAction::Wait),
    }
}

/// Whether a stream in this state still runs.
pub fn is_running(state: WatchState) -> (running: bool)
    ensures
        running == (state != WatchState::Stopped),
{
    match state {
        WatchState::Stopped => false,
        _ => true,
    }
}

} // verus!

verus! {

/// A stopped stream stays stopped and does nothing, whatever reaches it.
pub proof fn lemma_stopped_is_final<C>(input: WatchInput, handlers: Map<Event, Handler<C>>)
    ensures
        watch_step(WatchState::Stopped, input, handlers) == (WatchState::Stopped, WatchAction::Wait),
{
}

/// A stream whose watch opened watches, and one whose watch could not be
/// opened stops for that reason, whatever handlers it runs with; nothing
/// else moves a stream out of opening.
pub proof fn lemma_opening_stream_opens<C>(input: WatchInput, handlers: Map<Event, Handler<C>>)
    ensures
        watch_step(WatchState::Opening, WatchInput::Opened, handlers) == (
            WatchState::Watching,
            WatchAction::Wait,
        ),
        watch_step(WatchState::Opening, WatchInput::OpenFailed, handlers) == (
            WatchState::Stopped,
            WatchAction::Stop(StopReason::OpenFailed),
        ),
        input != WatchInput::Opened && input != WatchInput::OpenFailed ==> watch_step(
            WatchState::Opening,
            input,
            handlers,
        ) == (WatchState::Opening, WatchAction::Wait),
{
}

/// The handlers a stream runs with matter only to the changes that reach
/// it: for every other input, the next state and the action are the same
/// whatever the handlers.
pub proof fn lemma_handlers_matter_only_for_changes<C>(
    state: WatchState,
    input: WatchInput,
    handlers: Map<Event, Handler<C>>,
    other: Map<Event, Handler<C>>,
)
    requires
        !(input is Change),
    ensures
        watch_step(state, input, handlers) == watch_step(state, input, other),
{
}

/// Only a change can make a stream run a handler, and only the stream's
/// handlers for the change's own event decide whether it does: two handler
/// maps that agree on which events have a handler give the same step.
pub proof fn lemma_step_depends_on_handled_events<C>(
    state: WatchState,
    input: WatchInput,
    handlers: Map<Event, Handler<C>>,
    other: Map<Event, Handler<C>>,
)
    requires
        handlers.dom() == other.dom(),
    ensures
        watch_step(state, input, handlers) == watch_step(state, input, other),
{
}

/// A stream that is watching stops when it is told to close, and when its
/// watch ends.
pub proof fn lemma_watching_stream_stops<C>(handlers: Map<Event, Handler<C>>)
    ensures
        watch_step(WatchState::Watching, WatchInput::CloseSignal, handlers) == (
            WatchState::Stopped,
            WatchAction::Stop(StopReason::Closed),
        ),
        watch_step(WatchState::Watching, WatchInput::StreamEnded, handlers) == (
            WatchState::Stopped,
            WatchAction::Stop(StopReason::Ended),
        ),
{
}

/// After an error a watching stream reopens its watch; it watches again
/// when the watch reopens, and stops when it cannot be reopened.
pub proof fn lemma_error_reopens_watch<C>(handlers: Map<Event, Handler<C>>)
    ensures
        watch_step(WatchState::Watching, WatchInput::StreamError, handlers) == (
            WatchState::Reopening,
            WatchAction::Reopen,
        ),
        watch_step(WatchState::Reopening, WatchInput::Opened, handlers) == (
            WatchState::Watching,
            WatchAction::Wait,
        ),
        watch_step(WatchState::Reopening, WatchInput::OpenFailed, handlers) == (
            WatchState::Stopped,
            WatchAction::Stop(StopReason::ReopenFailed),
        ),
{
}

/// A handler runs only for a change, while the stream is watching, only the
/// handler of the change's own event, and only on a document the change
/// carries; the stream keeps watching.
pub proof fn lemma_dispatch_only_for_own_event<C>(
    state: WatchState,
    input: WatchInput,
    handlers: Map<Event, Handler<C>>,
    event: Event,
    source: DocumentSource,
)
    requires
        watch_step(state, input, handlers).1 == WatchAction::Dispatch(event, source),
    ensures
        state == WatchState::Watching,
        watch_step(state, input, handlers).0 == WatchState::Watching,
        (input matches WatchInput::Change { event: e, documents } && e == event && document_for(
            event,
            documents,
        ) == Some(source)),
        handlers.contains_key(event),
{
}

/// A change that has a document to give runs the handler of its event,
/// whenever that event has one; the stream keeps watching.
pub proof fn lemma_change_runs_its_handler<C>(
    event: Event,
    documents: ChangeDocuments,
    handlers: Map<Event, Handler<C>>,
)
    requires
        handlers.contains_key(event),
        document_for(event, documents) is Some,
    ensures
        watch_step(WatchState::Watching, WatchInput::Change { event, documents }, handlers) == (
            WatchState::Watching,
            WatchAction::Dispatch(event, document_for(event, documents)->0),
        ),
{
}

/// A change with no document to give runs no callback.
pub proof fn lemma_no_document_runs_nothing<C>(
    event: Event,
    documents: ChangeDocuments,
    handlers: Map<Event, Handler<C>>,
)
    requires
        document_for(event, documents) is None,
    ensures
        watch_step(WatchState::Watching, WatchInput::Change { event, documents }, handlers) == (
            WatchState::Watching,
            WatchAction::Wait,
        ),
{
}

/// Updates and deletes that carry the key of the changed document always
/// have a document to give, though the driver sends them no full document by
/// default; a change carrying its full document always has one; and a change
/// handled as an insert without a full document has none.
pub proof fn lemma_which_changes_have_a_document(event: Event, documents: ChangeDocuments)
    ensures
        documents.full ==> document_for(event, documents) == Some(DocumentSource::Full),
        (event == Event::Update || event == Event::Delete) && documents.key ==> document_for(
            event,
            documents,
        ) is Some,
        event == Event::Insert && !documents.full ==> document_for(event, documents) is None,
{
}

/// A running stream stops only with a `Stop` action.
pub proof fn lemma_stops_only_with_stop_action<C>(
    state: WatchState,
    input: WatchInput,
    handlers: Map<Event, Handler<C>>,
)
    requires
        state != WatchState::Stopped,
        watch_step(state, input, handlers).0 == WatchState::Stopped,
    ensures
        (watch_step(state, input, handlers).1 matches WatchAction::Stop(_)),
{
}

/// A change with a document to give that reaches a watching stream for a
/// collection runs the callback last registered on that collection for the
/// change's event (insert, update or delete alike), when the stream runs
/// with a copy of the collection's handlers.
pub proof fn lemma_registered_callback_runs<C: Clone>(
    s: MongoStreamState<C>,
    name: Seq<char>,
    event: Event,
    documents: ChangeDocuments,
    callback: C,
    handlers: Map<Event, Handler<C>>,
)
    requires
        document_for(event, documents) is Some,
        callbacks_cloned(
            registered_or_default(after_add_callback(s, name, event, callback).callbacks, name),
            handlers,
        ),
    ensures
        watch_step(
            WatchState::Watching,
            WatchInput::Change { event, documents },
            handlers,
        ) == (WatchState::Watching, WatchAction::Dispatch(event, document_for(event, documents)->0)),
        (handlers[event] matches Handler::Custom(c) && cloned(callback, c)),
{
    lemma_added_callback_is_registered(s, name, event, callback);
    let registered = registered_or_default(after_add_callback(s, name, event, callback).callbacks, name);
    assert(registered.contains_key(event));
}

/// A change with a document to give that reaches a watching stream for a
/// collection without registered callbacks runs the default handler of its
/// event.
pub proof fn lemma_unregistered_change_runs_default<C: Clone>(
    s: MongoStreamState<C>,
    name: Seq<char>,
    event: Event,
    documents: ChangeDocuments,
    handlers: Map<Event, Handler<C>>,
)
    requires
        document_for(event, documents) is Some,
        !s.callbacks.contains_key(name),
        callbacks_cloned(registered_or_default(s.callbacks, name), handlers),
    ensures
        watch_step(
            WatchState::Watching,
            WatchInput::Change { event, documents },
            handlers,
        ) == (WatchState::Watching, WatchAction::Dispatch(event, document_for(event, documents)->0)),
        handlers[event] == Handler::<C>::Default,
{
    assert(default_handlers::<C>().contains_key(event));
}

} // verus!
