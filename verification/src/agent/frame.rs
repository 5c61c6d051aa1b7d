//! What a frame's payload means to the chat consumer.

use vstd::prelude::*;
use crate::agent::json::{parse_document, parsed_members, text_member};

verus! {

/// What one decoded payload means to the chat consumer.
#[derive(Debug, PartialEq, Eq)]
pub enum Frame {
    /// A piece of response text, to be appended to what was received so far.
    Fragment(String),
    /// The producer's end marker.
    Done,
    /// A payload that carries nothing for the consumer.
    Ignored,
}

/// The mathematical value of a [`Frame`].
pub enum FrameView {
    Fragment(Seq<char>),
    Done,
    Ignored,
}

impl View for Frame {
    type V = FrameView;

    open spec fn view(&self) -> FrameView {
        match self {
            Frame::Fragment(text) => FrameView::Fragment(text@),
            Frame::Done => FrameView::Done,
            Frame::Ignored => FrameView::Ignored,
        }
    }
}

/// The discriminators under which a payload carries response text.
pub open spec fn is_text_kind(kind: Seq<char>) -> bool {
    kind == "text"@ || kind == "text-delta"@
}

/// The meaning of a payload, given its discriminator and its two text fields,
/// each absent or present. `content` wins over `delta`.
pub open spec fn classify(
    kind: Option<Seq<char>>,
    content: Option<Seq<char>>,
    delta: Option<Seq<char>>,
) -> FrameView {
    match kind {
        None => FrameView::Ignored,
        Some(k) => if is_text_kind(k) {
            match (content, delta) {
                (Some(text), _) => FrameView::Fragment(text),
                (None, Some(text)) => FrameView::Fragment(text),
                (None, None) => FrameView::Ignored,
            }
        } else if k == "done"@ {
            FrameView::Done
        } else {
            FrameView::Ignored
        },
    }
}

/// A member of a set of string-valued members, absent or present.
pub open spec fn member(members: Map<Seq<char>, Seq<char>>, key: Seq<char>) -> Option<Seq<char>> {
    if members.contains_key(key) {
        Some(members[key])
    } else {
        None
    }
}

/// The meaning of a raw payload: a text that is not JSON is ignored; of a
/// document only the string-valued members `type`, `content` and `delta` count.
pub open spec fn decoded(data: Seq<char>) -> FrameView {
    match parsed_members(data) {
        None => FrameView::Ignored,
        Some(members) => classify(
            member(members, "type"@),
            member(members, "content"@),
            member(members, "delta"@),
        ),
    }
}

/// The three discriminators that the consumer tells apart are different texts.
pub proof fn lemma_kinds_differ()
    ensures
        "text"@ != "done"@,
        "text-delta"@ != "done"@,
        "text"@ != "text-delta"@,
{
    reveal_strlit("text");
    reveal_strlit("text-delta");
    reveal_strlit("done");
    assert("text"@.len() == 4 && "text-delta"@.len() == 10 && "done"@.len() == 4);
    assert("text"@[0] == 't' && "done"@[0] == 'd');
}

/// Where a payload for response text has both fields, its `content` is the
/// fragment, whatever its `delta` holds.
pub proof fn lemma_content_before_delta(kind: Seq<char>, content: Seq<char>, delta: Seq<char>)
    requires
        is_text_kind(kind),
    ensures
        classify(Some(kind), Some(content), Some(delta)) == FrameView::Fragment(content),
{
}

impl Frame {
    /// Classifies a payload from its discriminator and its two text fields.
    pub fn classify(kind: Option<&str>, content: Option<String>, delta: Option<String>) -> (frame:
        Frame)
        ensures
            frame@ == classify(kind.deep_view(), content.deep_view(), delta.deep_view()),
    {
        match kind {
            None => Frame::Ignored,
            Some(k) => {
                if k.eq("text") || k.eq("text-delta") {
                    match content {
                        Some(text) => Frame::Fragment(text),
                        None => match delta {
                            Some(text) => Frame::Fragment(text),
                            None => Frame::Ignored,
                        },
                    }
                } else if k.eq("done") {
                    Frame::Done
                } else {
                    Frame::Ignored
                }
            },
        }
    }

    /// Decodes a raw payload. Malformed payloads are not an error here: they
    /// decode to [`Frame::Ignored`].
    pub fn decode(data: &str) -> (frame: Frame)
        ensures
            frame@ == decoded(data@),
    {
        match parse_document(data) {
            Err(_) => Frame::Ignored,
            Ok(document) => {
                let kind = text_member(&document, "type");
                let content = text_member(&document, "content");
                let delta = text_member(&document, "delta");
                match kind {
                    Some(k) => Frame::classify(Some(k.as_str()), content, delta),
                    None => Frame::classify(None, content, delta),
                }
            },
        }
    }
}

} // verus!
