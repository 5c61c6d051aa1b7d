//! The signals of an event stream, as a transport reports them.

use vstd::prelude::*;
use vstd::string::StringExecFns;
use crate::utils::errors::{AppError, AppErrorView};

verus! {

/// One thing a transport reports while an event stream is being read. `D` is
/// the form in which a frame's payload is handed over.
#[derive(Debug)]
pub enum Signal<D> {
    /// The connection is established; no frame yet.
    Open,
    /// A frame arrived: its event name and its payload.
    Message { event: String, data: D },
    /// The transport failed. The text says why.
    Error(String),
}

/// The message with which a transport failure is reported.
pub open spec fn stream_failure(cause: Seq<char>) -> Seq<char> {
    "SSE stream error: "@ + cause
}

/// Builds the message with which a transport failure is reported.
pub fn stream_failure_message(cause: &str) -> (message: String)
    ensures
        message@ == stream_failure(cause@),
{
    let mut message = String::from_str("SSE stream error: ");
    message.append(cause);
    message
}

/// The message with which a stream that could not be opened is reported.
pub open spec fn connection_failure(cause: Seq<char>) -> Seq<char> {
    "Failed to create eventsource: "@ + cause
}

/// The failure of a call whose stream could not be opened: no signal was
/// delivered, and none will be.
pub fn connection_refused(cause: &str) -> (error: AppError)
    ensures
        error@ == AppErrorView::Agent(connection_failure(cause@)),
{
    let mut message = String::from_str("Failed to create eventsource: ");
    message.append(cause);
    AppError::Agent(message)
}

} // verus!
