//! Stream chunks: the fragments of a streamed reply, how one is read from a
//! JSON document, and what one line of the event stream amounts to.

use crate::error::ChunkFault;
use crate::json::{
    array_field, array_member, contents, from_str, is_object, json_content, json_document,
    object_field, object_member, optional_text_field, optional_text_member, unsigned_field,
    unsigned_member, Json,
};
use crate::text::{strip_leading, text_view, trim_start_matches};
use vstd::prelude::*;

verus! {

/// What one fragment adds: the role of the speaker, or a piece of content.
#[derive(Debug, PartialEq, Eq)]
pub struct Delta {
    pub role: Option<String>,
    pub content: Option<String>,
}

/// A delta with its strings as sequences of characters.
pub struct DeltaView {
    pub role: Option<Seq<char>>,
    pub content: Option<Seq<char>>,
}

impl View for Delta {
    type V = DeltaView;

    open spec fn view(&self) -> DeltaView {
        DeltaView { role: text_view(self.role), content: text_view(self.content) }
    }
}

/// One choice of a stream chunk.
#[derive(Debug, PartialEq, Eq)]
pub struct ChoiceChunk {
    pub delta: Delta,
    pub index: u64,
    pub finish_reason: Option<String>,
}

/// A choice of a stream chunk with its strings as sequences of characters.
pub struct ChoiceChunkView {
    pub delta: DeltaView,
    pub index: u64,
    pub finish_reason: Option<Seq<char>>,
}

impl View for ChoiceChunk {
    type V = ChoiceChunkView;

    open spec fn view(&self) -> ChoiceChunkView {
        ChoiceChunkView {
            delta: self.delta@,
            index: self.index,
            finish_reason: text_view(self.finish_reason),
        }
    }
}

/// One event of a streamed reply.
#[derive(Debug, PartialEq, Eq)]
pub struct StreamChunk {
    pub choices: Vec<ChoiceChunk>,
}

/// A stream chunk with its choices as a sequence of views.
pub struct StreamChunkView {
    pub choices: Seq<ChoiceChunkView>,
}

impl View for StreamChunk {
    type V = StreamChunkView;

    open spec fn view(&self) -> StreamChunkView {
        StreamChunkView { choices: choice_views(self.choices@) }
    }
}

/// The views of a sequence of choices, in the same order.
pub open spec fn choice_views(choices: Seq<ChoiceChunk>) -> Seq<ChoiceChunkView> {
    choices.map_values(|c: ChoiceChunk| c@)
}

/// The delta that a JSON value denotes: an object whose members `role` and
/// `content`, where present and not `null`, are strings.
pub open spec fn delta_of(json: Json) -> Option<DeltaView> {
    if json is Object {
        match (optional_text_member(json, "role"@), optional_text_member(json, "content"@)) {
            (Some(role), Some(content)) => Some(DeltaView { role, content }),
            _ => None,
        }
    } else {
        None
    }
}

/// The choice that a JSON value denotes: an object with a delta under
/// `delta`, an unsigned integer under `index` and, where present and not
/// `null`, a string under `finish_reason`.
pub open spec fn choice_chunk_of(json: Json) -> Option<ChoiceChunkView> {
    match (
        object_member(json, "delta"@),
        unsigned_member(json, "index"@),
        optional_text_member(json, "finish_reason"@),
    ) {
        (Some(inner), Some(index), Some(finish_reason)) => match delta_of(inner) {
            Some(delta) => Some(ChoiceChunkView { delta, index, finish_reason }),
            None => None,
        },
        _ => None,
    }
}

/// The choices that a sequence of JSON values denotes: `Some` where every one
/// of them denotes a choice.
pub open spec fn choice_chunks_of(elements: Seq<Json>) -> Option<Seq<ChoiceChunkView>> {
    if forall|i: int| 0 <= i < elements.len() ==> (#[trigger] choice_chunk_of(elements[i])) is Some {
        Some(elements.map_values(|e: Json| choice_chunk_of(e)->Some_0))
    } else {
        None
    }
}

/// The stream chunk that a JSON document denotes: an object with an array of
/// choices under `choices`. Other members are not looked at.
pub open spec fn stream_chunk_of(json: Json) -> Option<StreamChunkView> {
    match array_member(json, "choices"@) {
        Some(elements) => match choice_chunks_of(elements) {
            Some(choices) => Some(StreamChunkView { choices }),
            None => None,
        },
        None => None,
    }
}

/// What one line of the event stream amounts to.
#[derive(Debug, PartialEq, Eq)]
pub enum LineOutcome {
    /// The termination sentinel: the stream has ended.
    Done,
    /// An end-of-turn marker or a role announcement: nothing to forward.
    Silent,
    /// A piece of content, to be forwarded and appended to the reply.
    Fragment(String),
    /// The line is rejected: the call fails.
    Rejected(ChunkFault),
}

/// What a line amounts to, with the fragment as a sequence of characters.
pub enum LineOutcomeView {
    Done,
    Silent,
    Fragment(Seq<char>),
    Rejected(ChunkFault),
}

impl View for LineOutcome {
    type V = LineOutcomeView;

    open spec fn view(&self) -> LineOutcomeView {
        match *self {
            LineOutcome::Done => LineOutcomeView::Done,
            LineOutcome::Silent => LineOutcomeView::Silent,
            LineOutcome::Fragment(content) => LineOutcomeView::Fragment(content@),
            LineOutcome::Rejected(fault) => LineOutcomeView::Rejected(fault),
        }
    }
}

/// The line that ends a stream.
pub open spec fn done_line() -> Seq<char> {
    "data: [DONE]"@
}

/// The marker in front of the payload of an event line.
pub open spec fn event_prefix() -> Seq<char> {
    "data: "@
}

/// What a chunk amounts to, read off its first choice: a finish reason marks
/// the end of the turn, a role announces the speaker, and otherwise the
/// content is the fragment. A chunk that offers none of these is rejected.
pub open spec fn chunk_outcome(chunk: StreamChunkView) -> LineOutcomeView {
    if chunk.choices.len() == 0 {
        LineOutcomeView::Rejected(ChunkFault::NoChoices)
    } else {
        let first = chunk.choices[0];
        if first.finish_reason is Some {
            LineOutcomeView::Silent
        } else if first.delta.role is Some {
            LineOutcomeView::Silent
        } else {
            match first.delta.content {
                Some(content) => LineOutcomeView::Fragment(content),
                None => LineOutcomeView::Rejected(ChunkFault::NoContent),
            }
        }
    }
}

/// A chunk whose first choice announces a role, and has no finish reason,
/// amounts to nothing that is forwarded, whatever else it carries.
pub proof fn lemma_role_chunk_is_silent(chunk: StreamChunkView)
    requires
        chunk.choices.len() > 0,
        chunk.choices[0].delta.role is Some,
    ensures
        chunk_outcome(chunk) == LineOutcomeView::Silent,
{
}

/// What a parsed payload amounts to.
pub open spec fn payload_outcome(document: Option<Json>) -> LineOutcomeView {
    match document {
        None => LineOutcomeView::Rejected(ChunkFault::InvalidJson),
        Some(json) => match stream_chunk_of(json) {
            None => LineOutcomeView::Rejected(ChunkFault::UnexpectedShape),
            Some(chunk) => chunk_outcome(chunk),
        },
    }
}

/// What a non-blank line of the event stream amounts to: the sentinel ends
/// the stream; any other line is stripped of its event prefix and read as a
/// stream chunk.
pub open spec fn line_outcome(line: Seq<char>) -> LineOutcomeView {
    if line == done_line() {
        LineOutcomeView::Done
    } else {
        payload_outcome(json_document(strip_leading(line, event_prefix())))
    }
}

/// Reads a delta from a JSON value.
pub fn decode_delta(value: &serde_json::Value) -> (delta: Option<Delta>)
    ensures
        match delta {
            Some(d) => delta_of(json_content(*value)) == Some(d@),
            None => delta_of(json_content(*value)) is None,
        },
{
    if !is_object(value) {
        return None;
    }
    let role = match optional_text_field(value, "role") {
        Some(role) => role,
        None => {
            return None;
        },
    };
    let content = match optional_text_field(value, "content") {
        Some(content) => content,
        None => {
            return None;
        },
    };
    Some(Delta { role, content })
}

/// Reads one choice of a stream chunk from a JSON value.
pub fn decode_choice_chunk(value: &serde_json::Value) -> (choice: Option<ChoiceChunk>)
    ensures
        match choice {
            Some(c) => choice_chunk_of(json_content(*value)) == Some(c@),
            None => choice_chunk_of(json_content(*value)) is None,
        },
{
    let inner = match object_field(value, "delta") {
        Some(inner) => inner,
        None => {
            return None;
        },
    };
    let index = match unsigned_field(value, "index") {
        Some(index) => index,
        None => {
            return None;
        },
    };
    let finish_reason = match optional_text_field(value, "finish_reason") {
        Some(finish_reason) => finish_reason,
        None => {
            return None;
        },
    };
    match decode_delta(inner) {
        Some(delta) => Some(ChoiceChunk { delta, index, finish_reason }),
        None => None,
    }
}

/// Reads a stream chunk from a parsed JSON document.
pub fn decode_chunk(value: &serde_json::Value) -> (chunk: Option<StreamChunk>)
    ensures
        match chunk {
            Some(c) => stream_chunk_of(json_content(*value)) == Some(c@),
            None => stream_chunk_of(json_content(*value)) is None,
        },
{
    let items = match array_field(value, "choices") {
        Some(items) => items,
        None => {
            return None;
        },
    };
    let ghost elements = contents(items@);
    let mut choices: Vec<ChoiceChunk> = Vec::new();
    let mut i: usize = 0;
    while i < items.len()
        invariant
            i <= items.len(),
            elements == contents(items@),
            array_member(json_content(*value), "choices"@) == Some(elements),
            choices@.len() == i,
            forall|j: int| 0 <= j < i ==> (#[trigger] choice_chunk_of(elements[j])) == Some(choices@[j]@),
        decreases items.len() - i,
    {
        match decode_choice_chunk(&items[i]) {
            Some(choice) => {
                choices.push(choice);
            },
            None => {
                assert(choice_chunk_of(elements[i as int]) is None);
                return None;
            },
        }
        i = i + 1;
    }
    assert(choice_views(choices@) =~= choice_chunks_of(elements)->Some_0);
    Some(StreamChunk { choices })
}

/// Says what a chunk amounts to.
pub fn classify_chunk(chunk: &StreamChunk) -> (outcome: LineOutcome)
    ensures
        outcome@ == chunk_outcome(chunk@),
{
    if chunk.choices.len() == 0 {
        return LineOutcome::Rejected(ChunkFault::NoChoices);
    }
    let first = &chunk.choices[0];
    assert(chunk@.choices[0] == first@);
    if first.finish_reason.is_some() {
        return LineOutcome::Silent;
    }
    if first.delta.role.is_some() {
        return LineOutcome::Silent;
    }
    match &first.delta.content {
        Some(content) => LineOutcome::Fragment(content.clone()),
        None => LineOutcome::Rejected(ChunkFault::NoContent),
    }
}

/// Says what a parsed payload amounts to; `None` stands for a payload that is
/// not a JSON document.
pub fn classify_payload(document: Option<&serde_json::Value>) -> (outcome: LineOutcome)
    ensures
        outcome@ == payload_outcome(
            match document {
                Some(value) => Some(json_content(*value)),
                None => None,
            },
        ),
{
    match document {
        None => LineOutcome::Rejected(ChunkFault::InvalidJson),
        Some(value) => match decode_chunk(value) {
            None => LineOutcome::Rejected(ChunkFault::UnexpectedShape),
            Some(chunk) => classify_chunk(&chunk),
        },
    }
}

/// Says what one non-blank line of the event stream amounts to.
pub fn process_chunk(line: &str) -> (outcome: LineOutcome)
    ensures
        outcome@ == line_outcome(line@),
{
    if line.to_owned() == "data: [DONE]".to_owned() {
        return LineOutcome::Done;
    }
    proof {
        reveal_strlit("data: ");
    }
    let payload = trim_start_matches(line, "data: ");
    let document = from_str(payload);
    classify_payload(document.as_ref())
}

} // verus!
