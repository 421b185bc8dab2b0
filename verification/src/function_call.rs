//! Function-call extraction: reading the structured action of a completed
//! reply against the shape that the caller expects.

use crate::completion::{CompletionResult, CompletionResultView};
use crate::json::{from_str, is_object, json_content, json_document, text_field, text_member, Json};
use crate::message::{FunctionCall, FunctionCallView};
use vstd::prelude::*;

verus! {

/// Why a function call could not be extracted.
#[derive(Clone, Copy, Debug, PartialEq, Eq, Structural)]
pub enum ExtractionError {
    /// The reply has no choice to read the call from.
    NoChoices,
    /// The arguments are not a JSON document.
    MalformedArguments,
    /// The arguments do not have the expected shape.
    ShapeMismatch,
}

/// A function call with its arguments read: the values of the expected
/// members, in the order in which the shape names them.
#[derive(Debug, PartialEq, Eq)]
pub struct ExtractedCall {
    pub name: String,
    pub arguments: Vec<String>,
}

/// An extracted call with its strings as sequences of characters.
pub struct ExtractedCallView {
    pub name: Seq<char>,
    pub arguments: Seq<Seq<char>>,
}

impl View for ExtractedCall {
    type V = ExtractedCallView;

    open spec fn view(&self) -> ExtractedCallView {
        ExtractedCallView { name: self.name@, arguments: text_views(self.arguments@) }
    }
}

/// What an extraction finds: no function call, which is a result and no
/// failure, or the call.
#[derive(Debug, PartialEq, Eq)]
pub enum Extraction {
    Absent,
    Call(ExtractedCall),
}

/// What an extraction finds, with its strings as sequences of characters.
pub enum ExtractionView {
    Absent,
    Call(ExtractedCallView),
}

impl View for Extraction {
    type V = ExtractionView;

    open spec fn view(&self) -> ExtractionView {
        match *self {
            Extraction::Absent => ExtractionView::Absent,
            Extraction::Call(call) => ExtractionView::Call(call@),
        }
    }
}

/// The views of a sequence of strings, in the same order.
pub open spec fn text_views(texts: Seq<String>) -> Seq<Seq<char>> {
    texts.map_values(|t: String| t@)
}

/// The arguments that a JSON document holds for a shape, which is the list
/// of the members that the caller expects: `Some` where the document is an
/// object in which every one of them is a string.
pub open spec fn arguments_of(json: Json, shape: Seq<Seq<char>>) -> Option<Seq<Seq<char>>> {
    if json is Object && forall|i: int|
        0 <= i < shape.len() ==> (#[trigger] text_member(json, shape[i])) is Some {
        Some(shape.map_values(|key: Seq<char>| text_member(json, key)->Some_0))
    } else {
        None
    }
}

/// What the extraction from a function call amounts to.
pub open spec fn call_extraction(call: FunctionCallView, shape: Seq<Seq<char>>) -> Result<
    ExtractedCallView,
    ExtractionError,
> {
    match json_document(call.arguments) {
        None => Err(ExtractionError::MalformedArguments),
        Some(json) => match arguments_of(json, shape) {
            None => Err(ExtractionError::ShapeMismatch),
            Some(arguments) => Ok(ExtractedCallView { name: call.name, arguments }),
        },
    }
}

/// What the extraction from a completed reply amounts to. It reads the first
/// choice. A message without a function call gives `Absent`.
pub open spec fn extraction_of(reply: CompletionResultView, shape: Seq<Seq<char>>) -> Result<
    ExtractionView,
    ExtractionError,
> {
    if reply.choices.len() == 0 {
        Err(ExtractionError::NoChoices)
    } else {
        match reply.choices[0].message.function_call {
            None => Ok(ExtractionView::Absent),
            Some(call) => match call_extraction(call, shape) {
                Ok(extracted) => Ok(ExtractionView::Call(extracted)),
                Err(error) => Err(error),
            },
        }
    }
}

/// Reads the arguments that a parsed JSON document holds for `shape`.
pub fn read_arguments(document: &serde_json::Value, shape: &Vec<String>) -> (arguments: Option<
    Vec<String>,
>)
    ensures
        match arguments {
            Some(values) => arguments_of(json_content(*document), text_views(shape@)) == Some(
                text_views(values@),
            ),
            None => arguments_of(json_content(*document), text_views(shape@)) is None,
        },
{
    if !is_object(document) {
        return None;
    }
    let ghost json = json_content(*document);
    let ghost keys = text_views(shape@);
    let mut values: Vec<String> = Vec::new();
    let mut i: usize = 0;
    while i < shape.len()
        invariant
            i <= shape.len(),
            json == json_content(*document),
            json is Object,
            keys == text_views(shape@),
            values@.len() == i,
            forall|j: int| 0 <= j < i ==> (#[trigger] text_member(json, keys[j])) == Some(values@[j]@),
        decreases shape.len() - i,
    {
        match text_field(document, shape[i].as_str()) {
            Some(value) => {
                values.push(value);
            },
            None => {
                assert(text_member(json, keys[i as int]) is None);
                return None;
            },
        }
        i = i + 1;
    }
    assert(text_views(values@) =~= arguments_of(json, keys)->Some_0);
    Some(values)
}

/// Reads the arguments of a function call against `shape`.
pub fn extract_call(call: &FunctionCall, shape: &Vec<String>) -> (extracted: Result<
    ExtractedCall,
    ExtractionError,
>)
    ensures
        match extracted {
            Ok(found) => call_extraction(call@, text_views(shape@)) == Ok::<
                ExtractedCallView,
                ExtractionError,
            >(found@),
            Err(error) => call_extraction(call@, text_views(shape@)) == Err::<
                ExtractedCallView,
                ExtractionError,
            >(error),
        },
{
    let document = match from_str(call.arguments.as_str()) {
        Some(document) => document,
        None => {
            return Err(ExtractionError::MalformedArguments);
        },
    };
    match read_arguments(&document, shape) {
        Some(arguments) => Ok(ExtractedCall { name: call.name.clone(), arguments }),
        None => Err(ExtractionError::ShapeMismatch),
    }
}

/// Extracts the function call of a completed reply. The reply and the
/// session are left as they are: whether the call is recorded is for the
/// caller to decide.
pub fn extract_function_call(reply: &CompletionResult, shape: &Vec<String>) -> (extraction: Result<
    Extraction,
    ExtractionError,
>)
    ensures
        match extraction {
            Ok(found) => extraction_of(reply@, text_views(shape@)) == Ok::<
                ExtractionView,
                ExtractionError,
            >(found@),
            Err(error) => extraction_of(reply@, text_views(shape@)) == Err::<
                ExtractionView,
                ExtractionError,
            >(error),
        },
{
    if reply.choices.len() == 0 {
        return Err(ExtractionError::NoChoices);
    }
    let first = &reply.choices[0];
    assert(reply@.choices[0] == first@);
    match &first.message.function_call {
        None => Ok(Extraction::Absent),
        Some(call) => match extract_call(call, shape) {
            Ok(extracted) => Ok(Extraction::Call(extracted)),
            Err(error) => Err(error),
        },
    }
}

} // verus!
