//! The callbacks of one collection, one per event at most.
use vstd::prelude::*;
use crate::event::Event;

verus! {

/// What is run when an event reaches a collection's stream: the default
/// handler, which only logs that the event was received, or a callback
/// that the user registered.
#[derive(Debug)]
pub enum Handler<C> {
    Default,
    Custom(C),
}

/// A table from events to their handlers, holding at most one handler
/// per event.
#[derive(Debug)]
pub struct Callbacks<C> {
    insert: Option<Handler<C>>,
    update: Option<Handler<C>>,
    delete: Option<Handler<C>>,
}

/// Every event has a handler in `m`.
pub open spec fn covers_all_events<C>(m: Map<Event, Handler<C>>) -> bool {
    forall|e: Event| #[trigger] m.contains_key(e)
}

/// The default handlers: every event is handled by the default handler.
pub open spec fn default_handlers<C>() -> Map<Event, Handler<C>> {
    Map::new(|e: Event| true, |e: Event| Handler::<C>::Default)
}

/// `b` is a copy of the handler `a`: the default handler again, or a
/// clone of the same callback.
pub open spec fn handler_cloned<C: Clone>(a: Handler<C>, b: Handler<C>) -> bool {
    match (a, b) {
        (Handler::Default, Handler::Default) => true,
        (Handler::Custom(x), Handler::Custom(y)) => cloned(x, y),
        _ => false,
    }
}

/// `b` holds a copy of each handler of `a`, for the same events.
pub open spec fn callbacks_cloned<C: Clone>(a: Map<Event, Handler<C>>, b: Map<Event, Handler<C>>) -> bool {
    &&& a.dom() == b.dom()
    &&& forall|e: Event| #[trigger] a.contains_key(e) ==> handler_cloned(a[e], b[e])
}

impl<C> Callbacks<C> {
    /// The handler slot of an event.
    pub closed spec fn slot(&self, e: Event) -> Option<Handler<C>> {
        match e {
            Event::Insert => self.insert,
            Event::Update => self.update,
            Event::Delete => self.delete,
        }
    }
}

impl<C> View for Callbacks<C> {
    type V = Map<Event, Handler<C>>;

    /// The handler of each event that has one.
    closed spec fn view(&self) -> Map<Event, Handler<C>> {
        Map::new(|e: Event| self.slot(e) is Some, |e: Event| self.slot(e)->0)
    }
}

impl<C> Callbacks<C> {
    /// A table with no handlers.
    pub fn new() -> (callbacks: Self)
        ensures
            callbacks@ == Map::<Event, Handler<C>>::empty(),
    {
        let callbacks = Callbacks { insert: None, update: None, delete: None };
        assert(callbacks@ =~= Map::<Event, Handler<C>>::empty());
        callbacks
    }

    /// A table with the default handler for every event.
    pub fn defaults() -> (callbacks: Self)
        ensures
            callbacks@ == default_handlers::<C>(),
    {
        let callbacks = Callbacks {
            insert: Some(Handler::Default),
            update: Some(Handler::Default),
            delete: Some(Handler::Default),
        };
        assert(callbacks@ =~= default_handlers::<C>());
        callbacks
    }

    /// Sets the handler of `event`, returning the handler it had.
    pub fn insert(&mut self, event: Event, handler: Handler<C>) -> (previous: Option<Handler<C>>)
        ensures
            final(self)@ == old(self)@.insert(event, handler),
            previous == (if old(self)@.contains_key(event) {
                Some(old(self)@[event])
            } else {
                None
            }),
    {
        let mut previous = Some(handler);
        match event {
            Event::Insert => core::mem::swap(&mut self.insert, &mut previous),
            Event::Update => core::mem::swap(&mut self.update, &mut previous),
            Event::Delete => core::mem::swap(&mut self.delete, &mut previous),
        }
        assert(self@ =~= old(self)@.insert(event, handler));
        previous
    }

    /// The handler of `event`, if it has one.
    pub fn get(&self, event: &Event) -> (handler: Option<&Handler<C>>)
        ensures
            match handler {
                Some(h) => self@.contains_key(*event) && *h == self@[*event],
                None => !self@.contains_key(*event),
            },
    {
        let slot = match event {
            Event::Insert => &self.insert,
            Event::Update => &self.update,
            Event::Delete => &self.delete,
        };
        match slot {
            Some(h) => Some(h),
            None => None,
        }
    }

    /// Whether `event` has a handler.
    pub fn contains_key(&self, event: &Event) -> (found: bool)
        ensures
            found == self@.contains_key(*event),
    {
        match self.get(event) {
            Some(_) => true,
            None => false,
        }
    }

    /// The number of events that have a handler.
    pub fn len(&self) -> (n: usize)
        ensures
            n == self@.len(),
    {
        let ghost mut handled: Set<Event> = Set::empty();
        let mut n: usize = 0;
        if self.insert.is_some() {
            n = n + 1;
            proof { handled = handled.insert(Event::Insert); }
        }
        if self.update.is_some() {
            n = n + 1;
            proof { handled = handled.insert(Event::Update); }
        }
        if self.delete.is_some() {
            n = n + 1;
            proof { handled = handled.insert(Event::Delete); }
        }
        assert(self@.dom() =~= handled);
        n
    }

    /// Whether no event has a handler.
    pub fn is_empty(&self) -> (empty: bool)
        ensures
            empty == (self@.len() == 0),
    {
        self.len() == 0
    }
}

impl<C: Clone> Handler<C> {
    /// A copy of the handler.
    pub fn clone_handler(&self) -> (copy: Handler<C>)
        ensures
            handler_cloned(*self, copy),
    {
        match self {
            Handler::Default => Handler::Default,
            Handler::Custom(c) => Handler::Custom(c.clone()),
        }
    }
}

impl<C: Clone> Callbacks<C> {
    /// A copy of the table, with a copy of each handler.
    pub fn clone_callbacks(&self) -> (copy: Callbacks<C>)
        ensures
            callbacks_cloned(self@, copy@),
    {
        let insert = match &self.insert {
            Some(h) => Some(h.clone_handler()),
            None => None,
        };
        let update = match &self.update {
            Some(h) => Some(h.clone_handler()),
            None => None,
        };
        let delete = match &self.delete {
            Some(h) => Some(h.clone_handler()),
            None => None,
        };
        let copy = Callbacks { insert, update, delete };
        assert(self@.dom() =~= copy@.dom());
        assert forall|e: Event| #[trigger] self@.contains_key(e) implies handler_cloned(
            self@[e],
            copy@[e],
        ) by {
            match e {
                Event::Insert => {},
                Event::Update => {},
                Event::Delete => {},
            }
        }
        copy
    }
}

} // verus!
