//! The error type of the change-stream monitor.
use vstd::prelude::*;
use vstd::string::*;
use crate::outside::{is_mongodb_error_text, mongodb_error_text, send_error_text};

verus! {

/// An error of the change-stream monitor. It carries a message, and its
/// display text is the message behind the prefix `"MongoStream error: "`.
#[derive(Debug)]
pub struct MongoStreamError {
    message: String,
}

impl View for MongoStreamError {
    type V = Seq<char>;

    /// The error's message.
    closed spec fn view(&self) -> Seq<char> {
        self.message@
    }
}

/// The text put before the message when an error is displayed.
pub open spec fn display_prefix() -> Seq<char> {
    "MongoStream error: "@
}

/// The text every display text of a driver error begins with.
pub open spec fn driver_error_prefix() -> Seq<char> {
    "Kind: "@
}

/// The text put before tokio's own text when a close signal cannot be sent.
pub open spec fn send_failure_prefix() -> Seq<char> {
    "Failed to send close signal: "@
}

impl MongoStreamError {
    /// Creates an error with the given message.
    pub fn new(message: &str) -> (error: MongoStreamError)
        ensures
            error@ == message@,
    {
        MongoStreamError { message: String::from_str(message) }
    }

    /// The error's message.
    pub fn message(&self) -> (message: &str)
        ensures
            message@ == self@,
    {
        self.message.as_str()
    }

    /// The display text of the error: `"MongoStream error: "` followed by the message.
    pub fn to_string(&self) -> (text: String)
        ensures
            text@ == display_prefix() + self@,
    {
        String::from_str("MongoStream error: ").concat(self.message.as_str())
    }

    /// The underlying cause of the error: there is none, as the error keeps
    /// only a message.
    pub fn source(&self) -> (cause: Option<&MongoStreamError>)
        ensures
            cause is None,
    {
        None
    }

    /// The error for a failure reported by the MongoDB driver; its message
    /// is a display text of the driver error, which names the error's kind
    /// after `"Kind: "` and ends with its set of labels.
    pub fn from_mongodb_error(error: mongodb::error::Error) -> (converted: MongoStreamError)
        ensures
            is_mongodb_error_text(error, converted@),
            driver_error_prefix().is_prefix_of(converted@),
            converted@.last() == '}',
    {
        MongoStreamError { message: mongodb_error_text(&error) }
    }

    /// The error for a close signal that could not be sent because the
    /// receiving side was gone.
    pub fn from_send_error(error: tokio::sync::mpsc::error::SendError<()>) -> (converted: MongoStreamError)
        ensures
            converted@ == send_failure_prefix() + "channel closed"@,
    {
        let text = send_error_text(&error);
        MongoStreamError {
            message: String::from_str("Failed to send close signal: ").concat(text.as_str()),
        }
    }
}

impl From<mongodb::error::Error> for MongoStreamError {
    /// Same as `MongoStreamError::from_mongodb_error`.
    fn from(error: mongodb::error::Error) -> (converted: MongoStreamError)
        ensures
            is_mongodb_error_text(error, converted@),
            driver_error_prefix().is_prefix_of(converted@),
            converted@.last() == '}',
    {
        MongoStreamError::from_mongodb_error(error)
    }
}

/// The conversion's result is stated on `from` itself; no spec function of
/// the driver error gives it, as its text rests on hash-ordered labels.
impl vstd::std_specs::convert::FromSpecImpl<mongodb::error::Error> for MongoStreamError {
    open spec fn obeys_from_spec() -> bool {
        false
    }

    open spec fn from_spec(v: mongodb::error::Error) -> MongoStreamError {
        vstd::pervasive::arbitrary()
    }
}

impl From<tokio::sync::mpsc::error::SendError<()>> for MongoStreamError {
    /// Same as `MongoStreamError::from_send_error`.
    fn from(error: tokio::sync::mpsc::error::SendError<()>) -> (converted: MongoStreamError)
        ensures
            converted@ == send_failure_prefix() + "channel closed"@,
    {
        MongoStreamError::from_send_error(error)
    }
}

/// The conversion's result is stated on `from` itself, over the message.
impl vstd::std_specs::convert::FromSpecImpl<tokio::sync::mpsc::error::SendError<()>> for MongoStreamError {
    open spec fn obeys_from_spec() -> bool {
        false
    }

    open spec fn from_spec(v: tokio::sync::mpsc::error::SendError<()>) -> MongoStreamError {
        vstd::pervasive::arbitrary()
    }
}

} // verus!
