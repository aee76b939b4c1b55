//! The registry of a change-stream monitor: the callbacks registered for each
//! collection, and the close signals of the streams that are running.
use vstd::prelude::*;
use vstd::string::*;
use mongodb::Database;
use tokio::sync::mpsc::Sender;
use crate::callbacks::{Callbacks, Handler, callbacks_cloned, covers_all_events, default_handlers};
use crate::error::MongoStreamError;
use crate::event::Event;
use crate::table::{CollectionTable, lists_map};

verus! {

/// What a `MongoStream` holds, as mathematical values.
pub struct MongoStreamState<C> {
    /// The handlers registered for each collection.
    pub callbacks: Map<Seq<char>, Map<Event, Handler<C>>>,
    /// The close signal of each collection whose stream is running.
    pub streams: Map<Seq<char>, Sender<()>>,
}

/// The handlers a stream for `name` runs with: those registered for it, or
/// the default handlers when none were registered.
pub open spec fn registered_or_default<C>(
    callbacks: Map<Seq<char>, Map<Event, Handler<C>>>,
    name: Seq<char>,
) -> Map<Event, Handler<C>> {
    if callbacks.contains_key(name) {
        callbacks[name]
    } else {
        default_handlers::<C>()
    }
}

/// The state after registering `callback` for `event` on collection `name`.
pub open spec fn after_add_callback<C>(
    s: MongoStreamState<C>,
    name: Seq<char>,
    event: Event,
    callback: C,
) -> MongoStreamState<C> {
    MongoStreamState {
        callbacks: s.callbacks.insert(
            name,
            registered_or_default(s.callbacks, name).insert(event, Handler::Custom(callback)),
        ),
        streams: s.streams,
    }
}

/// Whether a stream for `name` is running.
pub open spec fn is_active<C>(s: MongoStreamState<C>, name: Seq<char>) -> bool {
    s.streams.contains_key(name)
}

/// The state after starting a stream for `name` whose close signal is
/// `signal`: unchanged when one is already running.
pub open spec fn after_start<C>(s: MongoStreamState<C>, name: Seq<char>, signal: Sender<()>) -> MongoStreamState<C> {
    if is_active(s, name) {
        s
    } else {
        MongoStreamState { callbacks: s.callbacks, streams: s.streams.insert(name, signal) }
    }
}

/// The state after closing the stream for `name`.
pub open spec fn after_close<C>(s: MongoStreamState<C>, name: Seq<char>) -> MongoStreamState<C> {
    MongoStreamState { callbacks: s.callbacks, streams: s.streams.remove(name) }
}

/// The message of the error for starting a stream that is already running.
pub open spec fn already_running_message(name: Seq<char>) -> Seq<char> {
    "Stream for collection '"@ + name + "' is already running"@
}

/// Registering a callback for an event on a collection makes it the
/// handler that a stream for that collection runs for that event; the
/// collection's other events keep their handlers (the default handler when
/// the collection had none), and other collections and the running streams
/// are unaffected.
pub proof fn lemma_added_callback_is_registered<C>(
    s: MongoStreamState<C>,
    name: Seq<char>,
    event: Event,
    callback: C,
)
    ensures
        ({
            let after = after_add_callback(s, name, event, callback);
            let handlers = registered_or_default(after.callbacks, name);
            &&& handlers.contains_key(event)
            &&& handlers[event] == Handler::Custom(callback)
            &&& forall|e: Event|
                e != event && #[trigger] registered_or_default(s.callbacks, name).contains_key(e)
                    ==> handlers.contains_key(e) && handlers[e] == registered_or_default(s.callbacks, name)[e]
            &&& forall|n: Seq<char>|
                n != name ==> #[trigger] registered_or_default(after.callbacks, n) == registered_or_default(s.callbacks, n)
            &&& after.streams == s.streams
        }),
{
}

/// A collection without registered callbacks runs the default handler for
/// every event.
pub proof fn lemma_unregistered_collection_uses_defaults<C>(s: MongoStreamState<C>, name: Seq<char>)
    requires
        !s.callbacks.contains_key(name),
    ensures
        registered_or_default(s.callbacks, name) == default_handlers::<C>(),
        covers_all_events(registered_or_default(s.callbacks, name)),
{
}

/// Once a stream for a collection is started, starting it again is refused
/// and changes nothing.
pub proof fn lemma_second_start_is_refused<C>(
    s: MongoStreamState<C>,
    name: Seq<char>,
    first: Sender<()>,
    second: Sender<()>,
)
    requires
        !is_active(s, name),
    ensures
        is_active(after_start(s, name, first), name),
        after_start(after_start(s, name, first), name, second) == after_start(s, name, first),
{
}

/// Closing a stream right after starting it hands back the close signal it
/// was started with and restores the monitor as it was; closing it again
/// finds nothing to close.
pub proof fn lemma_close_undoes_start<C>(s: MongoStreamState<C>, name: Seq<char>, signal: Sender<()>)
    requires
        !is_active(s, name),
    ensures
        after_start(s, name, signal).streams[name] == signal,
        after_close(after_start(s, name, signal), name) == s,
        !is_active(after_close(after_start(s, name, signal), name), name),
{
    assert(after_close(after_start(s, name, signal), name).streams =~= s.streams);
}

/// The state after closing the streams of `names`, one after the other.
pub open spec fn after_close_each<C>(s: MongoStreamState<C>, names: Seq<Seq<char>>) -> MongoStreamState<C>
    decreases names.len(),
{
    if names.len() == 0 {
        s
    } else {
        after_close_each(after_close(s, names[0]), names.drop_first())
    }
}

/// How many of the closes of `names`, one after the other, find a running
/// stream to close.
pub open spec fn closes_found<C>(s: MongoStreamState<C>, names: Seq<Seq<char>>) -> nat
    decreases names.len(),
{
    if names.len() == 0 {
        0
    } else {
        (if is_active(s, names[0]) { 1nat } else { 0nat }) + closes_found(
            after_close(s, names[0]),
            names.drop_first(),
        )
    }
}

/// The state with every stream closed and the callbacks kept.
pub open spec fn all_closed<C>(s: MongoStreamState<C>) -> MongoStreamState<C> {
    MongoStreamState { callbacks: s.callbacks, streams: Map::empty() }
}

/// Closing, one after the other, each running stream named once in `names`
/// finds every one of them running and ends with no stream running.
proof fn lemma_close_each_named<C>(s: MongoStreamState<C>, names: Seq<Seq<char>>)
    requires
        s.streams.dom().finite(),
        names.no_duplicates(),
        forall|k: Seq<char>| #[trigger] s.streams.contains_key(k) <==> names.contains(k),
    ensures
        after_close_each(s, names) == all_closed(s),
        closes_found(s, names) == names.len(),
        names.len() == s.streams.len(),
    decreases names.len(),
{
    if names.len() == 0 {
        assert(s.streams.dom() =~= Set::<Seq<char>>::empty());
        assert(s.streams =~= Map::<Seq<char>, Sender<()>>::empty());
    } else {
        let first = names[0];
        let rest = names.drop_first();
        let s2 = after_close(s, first);
        assert(names.contains(first));
        assert forall|k: Seq<char>| #[trigger] s2.streams.contains_key(k) <==> rest.contains(k) by {
            if rest.contains(k) {
                let j = choose|j: int| 0 <= j < rest.len() && rest[j] == k;
                assert(names[j + 1] == k);
                assert(names.contains(k));
            }
            if names.contains(k) && k != first {
                let j = choose|j: int| 0 <= j < names.len() && names[j] == k;
                assert(j != 0);
                assert(rest[j - 1] == k);
            }
        }
        assert(rest.no_duplicates()) by {
            assert forall|a: int, b: int| 0 <= a < rest.len() && 0 <= b < rest.len() && a != b implies rest[a]
                != rest[b] by {
                assert(rest[a] == names[a + 1]);
                assert(rest[b] == names[b + 1]);
            }
        }
        lemma_close_each_named(s2, rest);
        assert(all_closed(s2).streams =~= all_closed(s).streams);
    }
}

/// Closing every stream at once does what closing each running stream in
/// turn does: given the collections that `close_all_streams` lists, closing
/// them one after the other finds each of them running, so each close
/// reports a stream closed, and ends in the state that closing all at once
/// leaves, with no stream running and the callbacks kept.
pub proof fn lemma_close_all_is_closing_each<C>(s: MongoStreamState<C>, closed: Seq<(String, Sender<()>)>)
    requires
        lists_map(closed, s.streams),
    ensures
        after_close_each(s, closed.map_values(|e: (String, Sender<()>)| e.0@)) == all_closed(s),
        closes_found(s, closed.map_values(|e: (String, Sender<()>)| e.0@)) == closed.len(),
{
    let names = closed.map_values(|e: (String, Sender<()>)| e.0@);
    assert forall|k: Seq<char>| #[trigger] s.streams.contains_key(k) <==> names.contains(k) by {
        if s.streams.contains_key(k) {
            let i = choose|i: int| 0 <= i < closed.len() && closed[i].0@ == k;
            assert(names[i] == k);
        }
        if names.contains(k) {
            let i = choose|i: int| 0 <= i < names.len() && names[i] == k;
            assert(closed[i].0@ == k);
        }
    }
    assert(names.no_duplicates()) by {
        assert forall|a: int, b: int| 0 <= a < names.len() && 0 <= b < names.len() && a != b implies names[a]
            != names[b] by {
            if a < b {
                assert(closed[a].0@ != closed[b].0@);
            } else {
                assert(closed[b].0@ != closed[a].0@);
            }
        }
    }
    lemma_close_each_named(s, names);
}

/// Closing the stream of a collection forgets that collection's stream and
/// no other: every other running stream keeps running with its close
/// signal, and closing a collection with no running stream changes nothing.
pub proof fn lemma_close_forgets_only_its_stream<C>(s: MongoStreamState<C>, name: Seq<char>, other: Seq<char>)
    ensures
        !is_active(after_close(s, name), name),
        other != name ==> (is_active(after_close(s, name), other) == is_active(s, other)),
        other != name && is_active(s, other) ==> after_close(s, name).streams[other] == s.streams[other],
        s.streams.dom().finite() ==> after_close(s, name).streams.len() == if is_active(s, name) {
            s.streams.len() - 1
        } else {
            s.streams.len() as int
        },
        !is_active(s, name) ==> after_close(s, name) == s,
{
    if !is_active(s, name) {
        assert(after_close(s, name).streams =~= s.streams);
    }
}

/// Starting the stream of a collection that is not running records it with
/// its close signal and leaves every other collection's stream as it was.
pub proof fn lemma_start_adds_only_its_stream<C>(
    s: MongoStreamState<C>,
    name: Seq<char>,
    signal: Sender<()>,
    other: Seq<char>,
)
    ensures
        is_active(after_start(s, name, signal), name),
        !is_active(s, name) ==> after_start(s, name, signal).streams[name] == signal,
        is_active(s, name) ==> after_start(s, name, signal).streams[name] == s.streams[name],
        other != name ==> (is_active(after_start(s, name, signal), other) == is_active(s, other)),
        other != name && is_active(s, other) ==> after_start(s, name, signal).streams[other]
            == s.streams[other],
{
}

/// Starting or closing a stream never changes the registered callbacks.
pub proof fn lemma_streams_leave_callbacks<C>(s: MongoStreamState<C>, name: Seq<char>, signal: Sender<()>)
    ensures
        after_start(s, name, signal).callbacks == s.callbacks,
        after_close(s, name).callbacks == s.callbacks,
{
}

/// A monitor of the change streams of one MongoDB database, with callbacks
/// per collection and event. `C` is the type of the callbacks.
pub struct MongoStream<C> {
    /// The database whose collections are monitored.
    db: Database,
    /// The callbacks registered for each collection.
    collection_callbacks: CollectionTable<Callbacks<C>>,
    /// The close signal of each running stream.
    active_streams: CollectionTable<Sender<()>>,
}

impl<C> View for MongoStream<C> {
    type V = MongoStreamState<C>;

    closed spec fn view(&self) -> MongoStreamState<C> {
        MongoStreamState {
            callbacks: self.collection_callbacks@.map_values(|c: Callbacks<C>| c@),
            streams: self.active_streams@,
        }
    }
}

impl<C> MongoStream<C> {
    /// The database the monitor works on.
    pub closed spec fn database_spec(&self) -> Database {
        self.db
    }

    /// The monitor is well formed: both tables list each collection once,
    /// and every collection with registered callbacks has a handler for
    /// every event.
    pub closed spec fn wf(&self) -> bool {
        &&& self.collection_callbacks.wf()
        &&& self.active_streams.wf()
        &&& forall|name: Seq<char>| #[trigger]
            self.collection_callbacks@.contains_key(name) ==> covers_all_events(
                self.collection_callbacks@[name]@,
            )
    }

    /// Every collection with registered callbacks has a handler for every event.
    pub proof fn lemma_registered_cover_all_events(&self, name: Seq<char>)
        requires
            self.wf(),
            self@.callbacks.contains_key(name),
        ensures
            covers_all_events(self@.callbacks[name]),
    {
    }

    /// Creates a monitor for `db`, with no callbacks and no running streams.
    pub fn new(db: Database) -> (stream: Self)
        ensures
            stream.wf(),
            stream.database_spec() == db,
            stream@.callbacks == Map::<Seq<char>, Map<Event, Handler<C>>>::empty(),
            stream@.streams == Map::<Seq<char>, Sender<()>>::empty(),
    {
        let stream = MongoStream {
            db,
            collection_callbacks: CollectionTable::new(),
            active_streams: CollectionTable::new(),
        };
        assert(stream@.callbacks =~= Map::<Seq<char>, Map<Event, Handler<C>>>::empty());
        stream
    }

    /// The database the monitor works on.
    pub fn database(&self) -> (db: &Database)
        ensures
            *db == self.database_spec(),
    {
        &self.db
    }

    /// The default handlers, one for every event, each of which only logs
    /// that the event was received.
    pub fn create_default_callbacks(&self) -> (callbacks: Callbacks<C>)
        ensures
            callbacks@ == default_handlers::<C>(),
    {
        Callbacks::defaults()
    }

    /// Registers `callback` for `event` on the collection `collection_name`.
    /// A collection that had no callbacks first gets the default handlers,
    /// so it then has a handler for every event.
    pub fn add_callback(&mut self, collection_name: &str, event: Event, callback: C)
        requires
            old(self).wf(),
        ensures
            final(self).wf(),
            final(self)@ == after_add_callback(old(self)@, collection_name@, event, callback),
            final(self).database_spec() == old(self).database_spec(),
    {
        let default_callbacks = self.create_default_callbacks();
        let mut callbacks = match self.collection_callbacks.remove(collection_name) {
            Some(registered) => registered,
            None => default_callbacks,
        };
        let ghost base = callbacks@;
        callbacks.insert(event, Handler::Custom(callback));
        let ghost updated = callbacks@;
        self.collection_callbacks.insert(String::from_str(collection_name), callbacks);
        proof {
            let name = collection_name@;
            let expected = after_add_callback(old(self)@, name, event, callback);
            assert(base == registered_or_default(old(self)@.callbacks, name));
            assert(self@.callbacks =~= expected.callbacks);
            assert forall|n: Seq<char>| #[trigger]
                self.collection_callbacks@.contains_key(n) implies covers_all_events(
                self.collection_callbacks@[n]@,
            ) by {
                if n != name {
                    assert(old(self).collection_callbacks@.contains_key(n));
                } else {
                    assert(self.collection_callbacks@[n]@ == updated);
                    if old(self).collection_callbacks@.contains_key(name) {
                        assert(covers_all_events(base));
                    }
                    assert forall|e: Event| #[trigger] updated.contains_key(e) by {
                        assert(base.contains_key(e));
                    }
                }
            }
        }
    }

    /// Whether a stream for `collection_name` is running.
    pub fn is_stream_active(&self, collection_name: &str) -> (active: bool)
        requires
            self.wf(),
        ensures
            active == is_active(self@, collection_name@),
    {
        self.active_streams.contains_key(collection_name)
    }

    /// The number of running streams.
    pub fn active_stream_count(&self) -> (n: usize)
        requires
            self.wf(),
        ensures
            n == self@.streams.len(),
    {
        self.active_streams.len()
    }

    /// The number of collections with registered callbacks.
    pub fn registered_collection_count(&self) -> (n: usize)
        requires
            self.wf(),
        ensures
            n == self@.callbacks.len(),
    {
        proof {
            assert(self@.callbacks.dom() =~= self.collection_callbacks@.dom());
        }
        self.collection_callbacks.len()
    }

    /// Closes the stream for `collection_name`: forgets it, and hands back
    /// its close signal, to be sent by the caller. `None` when no stream for
    /// that collection is running.
    pub fn close_stream(&mut self, collection_name: &str) -> (signal: Option<Sender<()>>)
        requires
            old(self).wf(),
        ensures
            final(self).wf(),
            final(self)@ == after_close(old(self)@, collection_name@),
            final(self).database_spec() == old(self).database_spec(),
            match signal {
                Some(tx) => is_active(old(self)@, collection_name@) && tx == old(self)@.streams[collection_name@],
                None => !is_active(old(self)@, collection_name@),
            },
    {
        let signal = self.active_streams.remove(collection_name);
        assert(self@.callbacks =~= old(self)@.callbacks);
        signal
    }

    /// Closes every running stream: forgets them all, and hands back each
    /// collection with its close signal, to be sent by the caller. The number
    /// of entries is the number of streams that were running.
    pub fn close_all_streams(&mut self) -> (closed: Vec<(String, Sender<()>)>)
        requires
            old(self).wf(),
        ensures
            final(self).wf(),
            final(self)@.callbacks == old(self)@.callbacks,
            final(self)@.streams == Map::<Seq<char>, Sender<()>>::empty(),
            final(self)@ == all_closed(old(self)@),
            final(self).database_spec() == old(self).database_spec(),
            lists_map(closed@, old(self)@.streams),
            closed@.len() == old(self)@.streams.len(),
    {
        let closed = self.active_streams.drain();
        assert(self@.callbacks =~= old(self)@.callbacks);
        closed
    }

    /// The next item of the monitor seen as a stream of events: always an
    /// insert event, as the monitor's own stream is not connected to a
    /// database.
    pub fn poll_next(&self) -> (item: Option<Result<Event, MongoStreamError>>)
        ensures
            (item matches Some(Ok(Event::Insert))),
    {
        Some(Ok(Event::Insert))
    }
}

impl<C: Clone> MongoStream<C> {
    /// The handlers a stream for `collection_name` runs with: a copy of those
    /// registered for it, or the default handlers when none were registered.
    pub fn get_collection_callbacks(&self, collection_name: &str) -> (callbacks: Callbacks<C>)
        requires
            self.wf(),
        ensures
            callbacks_cloned(registered_or_default(self@.callbacks, collection_name@), callbacks@),
    {
        match self.collection_callbacks.get(collection_name) {
            Some(registered) => registered.clone_callbacks(),
            None => {
                let callbacks = self.create_default_callbacks();
                assert(callbacks_cloned(default_handlers::<C>(), callbacks@));
                callbacks
            },
        }
    }

    /// Starts the stream for `collection_name`, whose close signal is
    /// `close_signal`: records it as running and returns the handlers it runs
    /// with. Fails, changing nothing, when a stream for that collection is
    /// already running.
    pub fn start_stream(&mut self, collection_name: &str, close_signal: Sender<()>) -> (started: Result<
        Callbacks<C>,
        MongoStreamError,
    >)
        requires
            old(self).wf(),
        ensures
            final(self).wf(),
            final(self)@ == after_start(old(self)@, collection_name@, close_signal),
            final(self).database_spec() == old(self).database_spec(),
            match started {
                Ok(callbacks) => !is_active(old(self)@, collection_name@) && callbacks_cloned(
                    registered_or_default(old(self)@.callbacks, collection_name@),
                    callbacks@,
                ),
                Err(e) => is_active(old(self)@, collection_name@) && e@ == already_running_message(
                    collection_name@,
                ),
            },
    {
        if self.active_streams.contains_key(collection_name) {
            let message = String::from_str("Stream for collection '").concat(collection_name).concat(
                "' is already running",
            );
            return Err(MongoStreamError::new(message.as_str()));
        }
        let callbacks = self.get_collection_callbacks(collection_name);
        self.active_streams.insert(String::from_str(collection_name), close_signal);
        assert(self@.callbacks =~= old(self)@.callbacks);
        Ok(callbacks)
    }
}

} // verus!
