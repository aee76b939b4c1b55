use rs_mongo_stream::callbacks::{Callbacks, Handler};
use rs_mongo_stream::watch::{
    callback_document, is_running, step, ChangeDocuments, DocumentSource, StopReason, WatchAction,
    WatchInput, WatchState,
};
use rs_mongo_stream::Event;

const FULL: ChangeDocuments = ChangeDocuments { full: true, pre_image: false, key: true };
const KEY_ONLY: ChangeDocuments = ChangeDocuments { full: false, pre_image: false, key: true };
const NONE: ChangeDocuments = ChangeDocuments { full: false, pre_image: false, key: false };

fn handlers_with_update(callback: u32) -> Callbacks<u32> {
    let mut callbacks: Callbacks<u32> = Callbacks::defaults();
    callbacks.insert(Event::Update, Handler::Custom(callback));
    callbacks
}

#[test]
fn opening_stream_watches_or_stops() {
    let handlers: Callbacks<u32> = Callbacks::defaults();
    assert_eq!(
        step(WatchState::Opening, &WatchInput::Opened, &handlers),
        (WatchState::Watching, WatchAction::Wait)
    );
    assert_eq!(
        step(WatchState::Opening, &WatchInput::OpenFailed, &handlers),
        (WatchState::Stopped, WatchAction::Stop(StopReason::OpenFailed))
    );
}

#[test]
fn change_with_document_is_dispatched() {
    let handlers = handlers_with_update(5);
    let change = WatchInput::Change { event: Event::Update, documents: FULL };
    assert_eq!(
        step(WatchState::Watching, &change, &handlers),
        (WatchState::Watching, WatchAction::Dispatch(Event::Update, DocumentSource::Full))
    );
    assert!(matches!(handlers.get(&Event::Update), Some(Handler::Custom(5))));
    let insert = WatchInput::Change { event: Event::Insert, documents: FULL };
    assert_eq!(
        step(WatchState::Watching, &insert, &handlers),
        (WatchState::Watching, WatchAction::Dispatch(Event::Insert, DocumentSource::Full))
    );
}

#[test]
fn delete_change_runs_its_handler() {
    // Deletes carry no full document; their handler runs all the same.
    let mut handlers = handlers_with_update(5);
    handlers.insert(Event::Delete, Handler::Custom(6));
    let change = WatchInput::Change { event: Event::Delete, documents: KEY_ONLY };
    assert_eq!(
        step(WatchState::Watching, &change, &handlers),
        (WatchState::Watching, WatchAction::Dispatch(Event::Delete, DocumentSource::Key))
    );
    assert!(matches!(handlers.get(&Event::Delete), Some(Handler::Custom(6))));
}

#[test]
fn change_without_handler_is_skipped() {
    let handlers: Callbacks<u32> = Callbacks::new();
    assert!(handlers.is_empty());
    let change = WatchInput::Change { event: Event::Insert, documents: FULL };
    assert_eq!(
        step(WatchState::Watching, &change, &handlers),
        (WatchState::Watching, WatchAction::Wait)
    );
}

#[test]
fn close_signal_and_end_stop_the_stream() {
    let handlers: Callbacks<u32> = Callbacks::defaults();
    assert_eq!(
        step(WatchState::Watching, &WatchInput::CloseSignal, &handlers),
        (WatchState::Stopped, WatchAction::Stop(StopReason::Closed))
    );
    assert_eq!(
        step(WatchState::Watching, &WatchInput::StreamEnded, &handlers),
        (WatchState::Stopped, WatchAction::Stop(StopReason::Ended))
    );
}

#[test]
fn error_reopens_the_watch() {
    let handlers: Callbacks<u32> = Callbacks::defaults();
    assert_eq!(
        step(WatchState::Watching, &WatchInput::StreamError, &handlers),
        (WatchState::Reopening, WatchAction::Reopen)
    );
    assert_eq!(
        step(WatchState::Reopening, &WatchInput::Opened, &handlers),
        (WatchState::Watching, WatchAction::Wait)
    );
    assert_eq!(
        step(WatchState::Reopening, &WatchInput::OpenFailed, &handlers),
        (WatchState::Stopped, WatchAction::Stop(StopReason::ReopenFailed))
    );
}

#[test]
fn stopped_stream_stays_stopped() {
    let handlers: Callbacks<u32> = Callbacks::defaults();
    let inputs = vec![
        WatchInput::Opened,
        WatchInput::OpenFailed,
        WatchInput::CloseSignal,
        WatchInput::Change { event: Event::Insert, documents: FULL },
        WatchInput::StreamError,
        WatchInput::StreamEnded,
    ];
    for input in inputs.iter() {
        assert_eq!(
            step(WatchState::Stopped, input, &handlers),
            (WatchState::Stopped, WatchAction::Wait)
        );
    }
    assert!(!is_running(WatchState::Stopped));
    assert!(is_running(WatchState::Watching));
}

#[test]
fn callbacks_table_counts_handlers() {
    let mut callbacks: Callbacks<u32> = Callbacks::new();
    assert_eq!(callbacks.len(), 0);
    assert!(callbacks.insert(Event::Delete, Handler::Custom(1)).is_none());
    assert_eq!(callbacks.len(), 1);
    assert!(matches!(
        callbacks.insert(Event::Delete, Handler::Default),
        Some(Handler::Custom(1))
    ));
    assert_eq!(callbacks.len(), 1);
    assert!(!callbacks.contains_key(&Event::Insert));
    let copy = callbacks.clone_callbacks();
    assert!(matches!(copy.get(&Event::Delete), Some(Handler::Default)));
    assert_eq!(copy.len(), 1);
}

#[test]
fn change_without_document_runs_nothing() {
    let handlers: Callbacks<u32> = Callbacks::defaults();
    // A drop is handled as an insert and carries no document.
    let change = WatchInput::Change { event: Event::Insert, documents: KEY_ONLY };
    assert_eq!(
        step(WatchState::Watching, &change, &handlers),
        (WatchState::Watching, WatchAction::Wait)
    );
    let bare_delete = WatchInput::Change { event: Event::Delete, documents: NONE };
    assert_eq!(
        step(WatchState::Watching, &bare_delete, &handlers),
        (WatchState::Watching, WatchAction::Wait)
    );
}

#[test]
fn callback_document_choices() {
    let pre = ChangeDocuments { full: false, pre_image: true, key: true };
    assert_eq!(callback_document(Event::Insert, FULL), Some(DocumentSource::Full));
    assert_eq!(callback_document(Event::Update, FULL), Some(DocumentSource::Full));
    assert_eq!(callback_document(Event::Update, pre), Some(DocumentSource::PreImage));
    assert_eq!(callback_document(Event::Delete, pre), Some(DocumentSource::PreImage));
    assert_eq!(callback_document(Event::Delete, KEY_ONLY), Some(DocumentSource::Key));
    assert_eq!(callback_document(Event::Update, KEY_ONLY), Some(DocumentSource::Key));
    assert_eq!(callback_document(Event::Insert, pre), None);
    assert_eq!(callback_document(Event::Delete, NONE), None);
}
