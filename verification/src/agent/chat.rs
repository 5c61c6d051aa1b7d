//! The chat consumer: a state machine over the signals of one stream, and
//! the laws of what it accumulates.

use vstd::prelude::*;
use vstd::string::StringExecFns;
use crate::agent::frame::{decoded, is_text_kind, lemma_kinds_differ, member, Frame, FrameView};
use crate::agent::json::parsed_members;
use crate::agent::signal::{stream_failure, stream_failure_message, Signal};
use crate::utils::errors::{text_view, AppError, AppErrorView};

verus! {

/// Where the consumption of one chat stream stands. The text of the first
/// three states is what was received so far; that of `Failed` is the cause.
#[derive(Debug, PartialEq, Eq)]
pub enum ChatState {
    /// Frames are still expected.
    Receiving(String),
    /// The producer sent its end marker.
    Done(String),
    /// The producer closed the stream without an end marker.
    Ended(String),
    /// The transport failed. What had been received is gone.
    Failed(String),
}

/// The mathematical value of a [`ChatState`], and the transition system that
/// the consumer follows.
pub enum Progress {
    Receiving(Seq<char>),
    Done(Seq<char>),
    Ended(Seq<char>),
    Failed(Seq<char>),
}

impl View for ChatState {
    type V = Progress;

    open spec fn view(&self) -> Progress {
        match self {
            ChatState::Receiving(text) => Progress::Receiving(text@),
            ChatState::Done(text) => Progress::Done(text@),
            ChatState::Ended(text) => Progress::Ended(text@),
            ChatState::Failed(cause) => Progress::Failed(cause@),
        }
    }
}

impl Progress {
    /// Nothing received yet.
    pub open spec fn start() -> Progress {
        Progress::Receiving(Seq::empty())
    }

    /// No signal changes a terminal state.
    pub open spec fn is_terminal(self) -> bool {
        !(self is Receiving)
    }

    /// The state after one decoded payload.
    pub open spec fn absorb(self, frame: FrameView) -> Progress {
        match self {
            Progress::Receiving(text) => match frame {
                FrameView::Fragment(piece) => Progress::Receiving(text + piece),
                FrameView::Done => Progress::Done(text),
                FrameView::Ignored => self,
            },
            _ => self,
        }
    }

    /// The state after a transport failure.
    pub open spec fn fail(self, cause: Seq<char>) -> Progress {
        match self {
            Progress::Receiving(_) => Progress::Failed(cause),
            _ => self,
        }
    }

    /// The state after the producer closed the stream.
    pub open spec fn close(self) -> Progress {
        match self {
            Progress::Receiving(text) => Progress::Ended(text),
            _ => self,
        }
    }

    /// The state after one signal.
    pub open spec fn step(self, signal: Signal<String>) -> Progress {
        match signal {
            Signal::Open => self,
            Signal::Message { event, data } => self.absorb(decoded(data@)),
            Signal::Error(cause) => self.fail(cause@),
        }
    }

    /// The state after a sequence of signals, taken in order.
    pub open spec fn run(self, signals: Seq<Signal<String>>) -> Progress
        decreases signals.len(),
    {
        if signals.len() == 0 {
            self
        } else {
            self.run(signals.drop_last()).step(signals.last())
        }
    }

    /// What the call reports from this state: the text, or a failure of the
    /// agent kind whose message names the cause.
    pub open spec fn result(self) -> Result<Seq<char>, AppErrorView> {
        match self {
            Progress::Receiving(text) => Ok(text),
            Progress::Done(text) => Ok(text),
            Progress::Ended(text) => Ok(text),
            Progress::Failed(cause) => Err(AppErrorView::Agent(stream_failure(cause))),
        }
    }
}

/// What a chat call reports for a stream that delivered `signals` and was then
/// closed.
pub open spec fn chat_result(signals: Seq<Signal<String>>) -> Result<Seq<char>, AppErrorView> {
    Progress::start().run(signals).close().result()
}

impl ChatState {
    /// The state in which a chat call begins.
    pub fn new() -> (state: ChatState)
        ensures
            state@ == Progress::start(),
    {
        ChatState::Receiving(String::new())
    }

    /// Whether the stream needs no further reading.
    pub fn is_terminal(&self) -> (terminal: bool)
        ensures
            terminal == self@.is_terminal(),
    {
        match self {
            ChatState::Receiving(_) => false,
            _ => true,
        }
    }

    /// Takes in one decoded payload.
    pub fn absorb(self, frame: Frame) -> (next: ChatState)
        ensures
            next@ == self@.absorb(frame@),
    {
        match self {
            ChatState::Receiving(mut text) => match frame {
                Frame::Fragment(piece) => {
                    text.append(piece.as_str());
                    ChatState::Receiving(text)
                },
                Frame::Done => ChatState::Done(text),
                Frame::Ignored => ChatState::Receiving(text),
            },
            other => other,
        }
    }

    /// Takes in a transport failure.
    pub fn fail(self, cause: &str) -> (next: ChatState)
        ensures
            next@ == self@.fail(cause@),
    {
        match self {
            ChatState::Receiving(_) => ChatState::Failed(String::from_str(cause)),
            other => other,
        }
    }

    /// Takes in the end of the stream.
    pub fn close(self) -> (next: ChatState)
        ensures
            next@ == self@.close(),
    {
        match self {
            ChatState::Receiving(text) => ChatState::Ended(text),
            other => other,
        }
    }

    /// Takes in one signal, decoding the payload of a frame.
    pub fn advance(self, signal: &Signal<String>) -> (next: ChatState)
        ensures
            next@ == self@.step(*signal),
    {
        match signal {
            Signal::Open => self,
            Signal::Message { event: _, data } => {
                let frame = Frame::decode(data.as_str());
                self.absorb(frame)
            },
            Signal::Error(cause) => self.fail(cause.as_str()),
        }
    }

    /// What the call reports from this state.
    pub fn into_result(self) -> (reported: Result<String, AppError>)
        ensures
            text_view(reported) == self@.result(),
    {
        match self {
            ChatState::Receiving(text) => Ok(text),
            ChatState::Done(text) => Ok(text),
            ChatState::Ended(text) => Ok(text),
            ChatState::Failed(cause) => Err(AppError::Agent(stream_failure_message(cause.as_str()))),
        }
    }
}

/// A terminal state absorbs every signal.
pub proof fn lemma_terminal_absorbs(state: Progress, signals: Seq<Signal<String>>)
    requires
        state.is_terminal(),
    ensures
        state.run(signals) == state,
    decreases signals.len(),
{
    if signals.len() > 0 {
        lemma_terminal_absorbs(state, signals.drop_last());
    }
}

/// Once a prefix of the signals has led to a terminal state, the rest of them
/// changes nothing.
pub proof fn lemma_terminal_prefix(state: Progress, signals: Seq<Signal<String>>, n: int)
    requires
        0 <= n <= signals.len(),
        state.run(signals.take(n)).is_terminal(),
    ensures
        state.run(signals) == state.run(signals.take(n)),
    decreases signals.len(),
{
    if n == signals.len() {
        assert(signals.take(n) =~= signals);
    } else {
        assert(signals.drop_last().take(n) =~= signals.take(n));
        lemma_terminal_prefix(state, signals.drop_last(), n);
    }
}

/// Whether a signal ends the consumption: a transport failure, or a frame that
/// decodes to the end marker.
pub open spec fn halts(signal: Signal<String>) -> bool {
    match signal {
        Signal::Open => false,
        Signal::Message { event, data } => decoded(data@) is Done,
        Signal::Error(_) => true,
    }
}

/// The text that one signal adds to the response: the fragment of a frame that
/// carries one, nothing otherwise.
pub open spec fn piece(signal: Signal<String>) -> Seq<char> {
    match signal {
        Signal::Message { event, data } => match decoded(data@) {
            FrameView::Fragment(text) => text,
            _ => Seq::empty(),
        },
        _ => Seq::empty(),
    }
}

/// The pieces of a sequence of signals, concatenated in order.
pub open spec fn joined(signals: Seq<Signal<String>>) -> Seq<char>
    decreases signals.len(),
{
    if signals.len() == 0 {
        Seq::empty()
    } else {
        joined(signals.drop_last()) + piece(signals.last())
    }
}

/// Whether a signal is a frame whose payload is a JSON document with a
/// discriminator for response text.
pub open spec fn is_text_frame(signal: Signal<String>) -> bool {
    signal matches Signal::Message { event, data } && parsed_members(data@) matches Some(members)
        && member(members, "type"@) matches Some(kind) && is_text_kind(kind)
}

/// The `content` of a set of members, or else its `delta`, or else nothing.
pub open spec fn content_or_delta(members: Map<Seq<char>, Seq<char>>) -> Seq<char> {
    match member(members, "content"@) {
        Some(text) => text,
        None => match member(members, "delta"@) {
            Some(text) => text,
            None => Seq::empty(),
        },
    }
}

/// While nothing ends the consumption, the state is `Receiving` and holds the
/// pieces of all signals so far, in order.
pub proof fn lemma_receiving_joins(signals: Seq<Signal<String>>)
    requires
        forall|i: int| 0 <= i < signals.len() ==> !halts(#[trigger] signals[i]),
    ensures
        Progress::start().run(signals) == Progress::Receiving(joined(signals)),
    decreases signals.len(),
{
    if signals.len() > 0 {
        let front = signals.drop_last();
        assert forall|i: int| 0 <= i < front.len() implies !halts(#[trigger] front[i]) by {
            assert(front[i] == signals[i]);
        }
        lemma_receiving_joins(front);
        assert(!halts(signals[signals.len() - 1]));
        assert(joined(front) + Seq::<char>::empty() =~= joined(front));
    }
}

/// A stream that closes without an end marker and without a transport failure
/// succeeds with everything that was accumulated.
pub proof fn lemma_result_without_halt(signals: Seq<Signal<String>>)
    requires
        forall|i: int| 0 <= i < signals.len() ==> !halts(#[trigger] signals[i]),
    ensures
        chat_result(signals) == Ok::<Seq<char>, AppErrorView>(joined(signals)),
{
    lemma_receiving_joins(signals);
}

/// The first signal that ends the consumption decides the result: a transport
/// failure gives its cause, an end marker gives what was accumulated before
/// it. Nothing after that signal counts.
pub proof fn lemma_result_at_halt(signals: Seq<Signal<String>>, n: int)
    requires
        0 <= n < signals.len(),
        forall|i: int| 0 <= i < n ==> !halts(#[trigger] signals[i]),
        halts(signals[n]),
    ensures
        chat_result(signals) == match signals[n] {
            Signal::Error(cause) => Err::<Seq<char>, AppErrorView>(
                AppErrorView::Agent(stream_failure(cause@)),
            ),
            _ => Ok(joined(signals.take(n))),
        },
{
    let before = signals.take(n);
    let upto = signals.take(n + 1);
    assert forall|i: int| 0 <= i < before.len() implies !halts(#[trigger] before[i]) by {
        assert(before[i] == signals[i]);
    }
    lemma_receiving_joins(before);
    assert(upto.drop_last() =~= before);
    assert(upto.last() == signals[n]);
    assert(Progress::start().run(upto) == Progress::start().run(before).step(signals[n]));
    lemma_terminal_prefix(Progress::start(), signals, n + 1);
}

/// Of a stream of text frames only, the result is the concatenation, in
/// order, of each frame's `content`, or of its `delta` where it has no
/// `content`.
pub proof fn lemma_text_frames_concatenate(signals: Seq<Signal<String>>)
    requires
        forall|i: int| 0 <= i < signals.len() ==> is_text_frame(#[trigger] signals[i]),
    ensures
        chat_result(signals) == Ok::<Seq<char>, AppErrorView>(joined(signals)),
        forall|i: int|
            0 <= i < signals.len() ==> piece(#[trigger] signals[i]) == content_or_delta(
                parsed_members(signals[i]->data@)->0,
            ),
{
    lemma_kinds_differ();
    assert forall|i: int| 0 <= i < signals.len() implies !halts(#[trigger] signals[i]) && piece(
        signals[i],
    ) == content_or_delta(parsed_members(signals[i]->data@)->0) by {
        assert(is_text_frame(signals[i]));
    }
    lemma_result_without_halt(signals);
}

/// An end marker or a transport failure truncates the stream: whatever
/// follows it does not change the result.
pub proof fn lemma_halt_truncates(
    before: Seq<Signal<String>>,
    marker: Signal<String>,
    after: Seq<Signal<String>>,
)
    requires
        halts(marker),
    ensures
        chat_result(before.push(marker) + after) == chat_result(before.push(marker)),
{
    let upto = before.push(marker);
    let all = upto + after;
    assert(upto.drop_last() =~= before);
    assert(Progress::start().run(upto) == Progress::start().run(before).step(marker));
    assert(all.take(upto.len() as int) =~= upto);
    lemma_terminal_prefix(Progress::start(), all, upto.len() as int);
}

/// Without a transport failure the call succeeds, with or without an end
/// marker.
pub proof fn lemma_success_without_failure(signals: Seq<Signal<String>>)
    requires
        forall|i: int| 0 <= i < signals.len() ==> !(#[trigger] signals[i] is Error),
    ensures
        chat_result(signals) is Ok,
        !(Progress::start().run(signals) is Failed),
    decreases signals.len(),
{
    if signals.len() > 0 {
        let front = signals.drop_last();
        assert forall|i: int| 0 <= i < front.len() implies !(#[trigger] front[i] is Error) by {
            assert(front[i] == signals[i]);
        }
        lemma_success_without_failure(front);
        assert(!(signals[signals.len() - 1] is Error));
    }
}

/// A text frame that has both a `content` and a `delta` adds its `content` to
/// the response, never its `delta`.
pub proof fn lemma_content_wins(received: Seq<char>, event: String, data: String)
    requires
        is_text_frame(Signal::Message { event, data }),
        parsed_members(data@)->0.contains_key("content"@),
        parsed_members(data@)->0.contains_key("delta"@),
    ensures
        Progress::Receiving(received).step(Signal::Message { event, data }) == Progress::Receiving(
            received + parsed_members(data@)->0["content"@],
        ),
{
}

/// A frame whose payload is not JSON is skipped: the state stays as it was.
pub proof fn lemma_malformed_frame_skipped(state: Progress, event: String, data: String)
    requires
        parsed_members(data@) is None,
    ensures
        state.step(Signal::Message { event, data }) == state,
{
}

} // verus!
