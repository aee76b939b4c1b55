# rs_mongo_stream

A MongoDB change-stream monitor: callbacks are registered per collection for
insert, update and delete events, and a stream per collection runs them as
changes arrive.

- `src/` is the library, verified with Verus:
  - `event.rs`: the events, their names, and how the driver's kinds of
    change map onto them;
  - `error.rs`: the error type and its display text;
  - `callbacks.rs`: the handlers of one collection, one per event;
  - `table.rs`: a table of values keyed by collection name;
  - `stream.rs`: the monitor's registry of callbacks and running streams,
    with the laws that relate its operations;
  - `watch.rs`: what a running stream does with each thing that reaches it;
  - `outside.rs`: the driver and tokio types the library carries, and the
    calls into them, with what is assumed of each.
- `app/` is the asynchronous front end on tokio: it opens the change
  streams, waits on them and on the close signals, runs the callbacks, and
  gives the error type `Display` and `std::error::Error`.
- `tests/` runs the library on concrete values.
