//! Verified core of a MongoDB change-stream monitor.
//!
//! The library keeps, per collection, the callbacks registered for insert,
//! update and delete events and the close signals of the running streams,
//! and it decides what a running stream does with each thing that reaches it.
//! Waiting on the database and on channels is left to the caller.
mod outside;

pub mod error;
pub mod callbacks;
pub mod event;
pub mod stream;
pub mod watch;
pub mod table;

pub use error::MongoStreamError;
pub use event::{Event, OperationKind};
pub use stream::MongoStream;
