//! The typed event stream, which is strict about its payloads.

use vstd::prelude::*;
use vstd::string::StringExecFns;
use crate::agent::signal::{stream_failure, stream_failure_message, Signal};
use crate::utils::errors::{failure_view, AppError, AppErrorView};

verus! {

/// One event of the typed stream: the frame's event name and its payload.
#[derive(Debug)]
pub struct StreamEvent {
    pub event: String,
    pub data: StreamEventData,
}

/// The payload of a frame, decoded against the schema of the typed stream.
#[derive(Debug)]
pub struct StreamEventData {
    pub event_type: String,
    pub content: Option<String>,
    pub tool: Option<String>,
    pub status: Option<String>,
}

/// The consumer of the typed stream. It differs from the chat consumer in
/// that a payload which does not fit the schema ends the stream with a failure.
pub struct StreamHandler {}

/// What the typed consumer hands on for one signal: nothing, an event, or the
/// failure that ends the stream.
pub open spec fn emission(signal: Signal<Result<StreamEventData, serde_json::Error>>) -> Option<
    Result<StreamEvent, AppErrorView>,
> {
    match signal {
        Signal::Open => None,
        Signal::Message { event, data: Ok(data) } => Some(Ok(StreamEvent { event, data })),
        Signal::Message { event, data: Err(cause) } => Some(
            Err(AppErrorView::Serialization(cause)),
        ),
        Signal::Error(cause) => Some(Err(AppErrorView::Agent(stream_failure(cause@)))),
    }
}

/// Whether a sequence of items has ended with a failure.
pub open spec fn stopped(items: Seq<Result<StreamEvent, AppErrorView>>) -> bool {
    items.len() > 0 && items.last() is Err
}

/// What the typed consumer hands on for a sequence of signals: the emissions
/// in order, up to and including the first failure.
pub open spec fn emissions(signals: Seq<Signal<Result<StreamEventData, serde_json::Error>>>) -> Seq<
    Result<StreamEvent, AppErrorView>,
>
    decreases signals.len(),
{
    if signals.len() == 0 {
        Seq::empty()
    } else {
        let before = emissions(signals.drop_last());
        if stopped(before) {
            before
        } else {
            match emission(signals.last()) {
                None => before,
                Some(item) => before.push(item),
            }
        }
    }
}

/// A sequence of items with each failure taken by its view.
pub open spec fn item_views(items: Seq<Result<StreamEvent, AppError>>) -> Seq<
    Result<StreamEvent, AppErrorView>,
> {
    items.map_values(|item: Result<StreamEvent, AppError>| failure_view(item))
}

impl StreamHandler {
    /// The address of an agent's event stream, with the session as a query
    /// where one is given.
    pub fn stream_url(base_url: &str, agent_name: &str, session_id: Option<&str>) -> (url: String)
        ensures
            url@ == base_url@ + "/api/agents/"@ + agent_name@ + "/stream"@ + match session_id {
                Some(session) => "?session_id="@ + session@,
                None => Seq::empty(),
            },
    {
        let mut url = String::from_str(base_url);
        url.append("/api/agents/");
        url.append(agent_name);
        url.append("/stream");
        match session_id {
            Some(session) => {
                url.append("?session_id=");
                url.append(session);
                assert(url@ == base_url@ + "/api/agents/"@ + agent_name@ + "/stream"@ + (
                "?session_id="@ + session@));
            },
            None => {
                assert(url@ == base_url@ + "/api/agents/"@ + agent_name@ + "/stream"@
                    + Seq::<char>::empty());
            },
        }
        url
    }

    /// Handles one signal.
    pub fn emit(signal: Signal<Result<StreamEventData, serde_json::Error>>) -> (item: Option<
        Result<StreamEvent, AppError>,
    >)
        ensures
            match item {
                Some(result) => emission(signal) == Some(failure_view(result)),
                None => emission(signal) is None,
            },
    {
        match signal {
            Signal::Open => None,
            Signal::Message { event, data } => match data {
                Ok(data) => Some(Ok(StreamEvent { event, data })),
                Err(cause) => Some(Err(AppError::Serialization(cause))),
            },
            Signal::Error(cause) => Some(
                Err(AppError::Agent(stream_failure_message(cause.as_str()))),
            ),
        }
    }

    /// Handles a recorded stream: the items that the typed stream yields for
    /// these signals.
    pub fn stream_chat(signals: Vec<Signal<Result<StreamEventData, serde_json::Error>>>) -> (items:
        Vec<Result<StreamEvent, AppError>>)
        ensures
            item_views(items@) == emissions(signals@),
    {
        let ghost all = signals@;
        let mut items: Vec<Result<StreamEvent, AppError>> = Vec::new();
        assert(all.take(0) =~= Seq::empty());
        assert(item_views(items@) =~= Seq::empty());
        for signal in it: signals
            invariant
                it.seq() == all,
                item_views(items@) == emissions(all.take(it.index() as int)),
                !stopped(item_views(items@)),
        {
            let ghost n = it.index() as int;
            let ghost before = items@;
            assert(signal == all[n]);
            assert(all.take(n + 1).drop_last() =~= all.take(n));
            assert(all.take(n + 1).last() == all[n]);
            match StreamHandler::emit(signal) {
                None => {},
                Some(Ok(event)) => {
                    items.push(Ok(event));
                    assert(item_views(items@) =~= item_views(before).push(Ok(event)));
                },
                Some(Err(error)) => {
                    items.push(Err(error));
                    proof {
                        assert(item_views(items@) =~= item_views(before).push(Err(error@)));
                        lemma_stopped_prefix(all, n + 1);
                    }
                    return items;
                },
            }
        }
        assert(all.take(all.len() as int) =~= all);
        items
    }
}

/// Once a prefix of the signals has ended with a failure, the rest of them
/// yields nothing.
pub proof fn lemma_stopped_prefix(
    signals: Seq<Signal<Result<StreamEventData, serde_json::Error>>>,
    n: int,
)
    requires
        0 <= n <= signals.len(),
        stopped(emissions(signals.take(n))),
    ensures
        emissions(signals) == emissions(signals.take(n)),
    decreases signals.len(),
{
    if n == signals.len() {
        assert(signals.take(n) =~= signals);
    } else {
        assert(signals.drop_last().take(n) =~= signals.take(n));
        lemma_stopped_prefix(signals.drop_last(), n);
    }
}

/// A signal that yields a failure ends the typed stream: the failure is the
/// last item, and nothing that follows is handed on.
pub proof fn lemma_failure_ends_stream(
    before: Seq<Signal<Result<StreamEventData, serde_json::Error>>>,
    marker: Signal<Result<StreamEventData, serde_json::Error>>,
    after: Seq<Signal<Result<StreamEventData, serde_json::Error>>>,
)
    requires
        !stopped(emissions(before)),
        emission(marker) matches Some(Err(_)),
    ensures
        emissions(before.push(marker) + after) == emissions(before).push(emission(marker)->0),
{
    let upto = before.push(marker);
    let all = upto + after;
    assert(upto.drop_last() =~= before);
    assert(all.take(upto.len() as int) =~= upto);
    lemma_stopped_prefix(all, upto.len() as int);
}

/// A payload that does not fit the schema aborts the typed stream with the
/// decode failure.
pub proof fn lemma_decode_failure_aborts(
    before: Seq<Signal<Result<StreamEventData, serde_json::Error>>>,
    event: String,
    cause: serde_json::Error,
    after: Seq<Signal<Result<StreamEventData, serde_json::Error>>>,
)
    requires
        !stopped(emissions(before)),
    ensures
        emissions(before.push(Signal::Message { event, data: Err(cause) }) + after) == emissions(
            before,
        ).push(Err(AppErrorView::Serialization(cause))),
{
    lemma_failure_ends_stream(before, Signal::Message { event, data: Err(cause) }, after);
}

} // verus!
