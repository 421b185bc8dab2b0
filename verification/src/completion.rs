//! Completed replies: what a single-shot completion returns, and how it is
//! read from a JSON document.

use crate::json::{
    array_field, array_member, contents, json_content, object_field, object_member,
    optional_object_field, optional_object_member, optional_text_field, optional_text_member,
    text_field, text_member, unsigned_field, unsigned_member, Json,
};
use crate::message::{
    role_named, FunctionCall, FunctionCallView, Message, MessageView, Role,
};
use vstd::prelude::*;

verus! {

/// The token counters of a reply.
#[derive(Clone, Copy, Debug, PartialEq, Eq, Structural)]
pub struct Usage {
    pub prompt_tokens: u64,
    pub completion_tokens: u64,
    pub total_tokens: u64,
}

/// One alternative of a reply.
#[derive(Debug, PartialEq, Eq)]
pub struct Choice {
    pub index: u64,
    pub message: Message,
    pub finish_reason: String,
}

/// A choice with its message and its strings as mathematical values.
pub struct ChoiceView {
    pub index: u64,
    pub message: MessageView,
    pub finish_reason: Seq<char>,
}

impl View for Choice {
    type V = ChoiceView;

    open spec fn view(&self) -> ChoiceView {
        ChoiceView {
            index: self.index,
            message: self.message@,
            finish_reason: self.finish_reason@,
        }
    }
}

/// A completed reply.
#[derive(Debug, PartialEq, Eq)]
pub struct CompletionResult {
    pub id: String,
    pub model: String,
    pub choices: Vec<Choice>,
    pub usage: Usage,
}

/// A completed reply with its strings and choices as mathematical values.
pub struct CompletionResultView {
    pub id: Seq<char>,
    pub model: Seq<char>,
    pub choices: Seq<ChoiceView>,
    pub usage: Usage,
}

impl View for CompletionResult {
    type V = CompletionResultView;

    open spec fn view(&self) -> CompletionResultView {
        CompletionResultView {
            id: self.id@,
            model: self.model@,
            choices: choice_views(self.choices@),
            usage: self.usage,
        }
    }
}

/// The views of a sequence of choices, in the same order.
pub open spec fn choice_views(choices: Seq<Choice>) -> Seq<ChoiceView> {
    choices.map_values(|c: Choice| c@)
}

/// The function call that a JSON value denotes: an object with strings under
/// `name` and `arguments`.
pub open spec fn function_call_of(json: Json) -> Option<FunctionCallView> {
    match (text_member(json, "name"@), text_member(json, "arguments"@)) {
        (Some(name), Some(arguments)) => Some(FunctionCallView { name, arguments }),
        _ => None,
    }
}

/// The optional function call of a message.
pub open spec fn optional_function_call_of(json: Json) -> Option<Option<FunctionCallView>> {
    match optional_object_member(json, "function_call"@) {
        None => None,
        Some(None) => Some(None),
        Some(Some(inner)) => match function_call_of(inner) {
            Some(call) => Some(Some(call)),
            None => None,
        },
    }
}

/// The role of a message: the string under `role`, where it names a role.
pub open spec fn role_of(json: Json) -> Option<Role> {
    match text_member(json, "role"@) {
        Some(text) => role_named(text),
        None => None,
    }
}

/// The message that a JSON value denotes: an object with a role name under
/// `role` and, where present and not `null`, strings under `content` and
/// `name` and a function call under `function_call`.
pub open spec fn message_of(json: Json) -> Option<MessageView> {
    match (
        role_of(json),
        optional_text_member(json, "content"@),
        optional_text_member(json, "name"@),
        optional_function_call_of(json),
    ) {
        (Some(role), Some(content), Some(name), Some(function_call)) => Some(
            MessageView { role, content, name, function_call },
        ),
        _ => None,
    }
}

/// The choice that a JSON value denotes: an object with an unsigned integer
/// under `index`, a message under `message` and a string under
/// `finish_reason`.
pub open spec fn choice_of(json: Json) -> Option<ChoiceView> {
    match (
        unsigned_member(json, "index"@),
        object_member(json, "message"@),
        text_member(json, "finish_reason"@),
    ) {
        (Some(index), Some(inner), Some(finish_reason)) => match message_of(inner) {
            Some(message) => Some(ChoiceView { index, message, finish_reason }),
            None => None,
        },
        _ => None,
    }
}

/// The choices that a sequence of JSON values denotes: `Some` where every one
/// of them denotes a choice.
pub open spec fn choices_of(elements: Seq<Json>) -> Option<Seq<ChoiceView>> {
    if forall|i: int| 0 <= i < elements.len() ==> (#[trigger] choice_of(elements[i])) is Some {
        Some(elements.map_values(|e: Json| choice_of(e)->Some_0))
    } else {
        None
    }
}

/// The counters that a JSON value denotes: an object with unsigned integers
/// under `prompt_tokens`, `completion_tokens` and `total_tokens`.
pub open spec fn usage_of(json: Json) -> Option<Usage> {
    match (
        unsigned_member(json, "prompt_tokens"@),
        unsigned_member(json, "completion_tokens"@),
        unsigned_member(json, "total_tokens"@),
    ) {
        (Some(prompt_tokens), Some(completion_tokens), Some(total_tokens)) => Some(
            Usage { prompt_tokens, completion_tokens, total_tokens },
        ),
        _ => None,
    }
}

/// The usage counters of a reply: the object under `usage`.
pub open spec fn reply_usage_of(json: Json) -> Option<Usage> {
    match object_member(json, "usage"@) {
        Some(inner) => usage_of(inner),
        None => None,
    }
}

/// The choices of a reply: the array under `choices`.
pub open spec fn reply_choices_of(json: Json) -> Option<Seq<ChoiceView>> {
    match array_member(json, "choices"@) {
        Some(elements) => choices_of(elements),
        None => None,
    }
}

/// The completed reply that a JSON document denotes: an object with strings
/// under `id` and `model`, an array of choices under `choices` and the
/// counters under `usage`. Other members are not looked at.
pub open spec fn completion_result_of(json: Json) -> Option<CompletionResultView> {
    match (
        text_member(json, "id"@),
        text_member(json, "model"@),
        reply_choices_of(json),
        reply_usage_of(json),
    ) {
        (Some(id), Some(model), Some(choices), Some(usage)) => Some(
            CompletionResultView { id, model, choices, usage },
        ),
        _ => None,
    }
}

/// Reads a function call from a JSON value.
pub fn decode_function_call(value: &serde_json::Value) -> (call: Option<FunctionCall>)
    ensures
        match call {
            Some(c) => function_call_of(json_content(*value)) == Some(c@),
            None => function_call_of(json_content(*value)) is None,
        },
{
    let name = match text_field(value, "name") {
        Some(name) => name,
        None => {
            return None;
        },
    };
    let arguments = match text_field(value, "arguments") {
        Some(arguments) => arguments,
        None => {
            return None;
        },
    };
    Some(FunctionCall { name, arguments })
}

/// Reads a message from a JSON value.
pub fn decode_message(value: &serde_json::Value) -> (message: Option<Message>)
    ensures
        match message {
            Some(m) => message_of(json_content(*value)) == Some(m@),
            None => message_of(json_content(*value)) is None,
        },
{
    let role = match text_field(value, "role") {
        Some(text) => match Role::parse_to_role(text.as_str()) {
            Some(role) => role,
            None => {
                return None;
            },
        },
        None => {
            return None;
        },
    };
    let content = match optional_text_field(value, "content") {
        Some(content) => content,
        None => {
            return None;
        },
    };
    let name = match optional_text_field(value, "name") {
        Some(name) => name,
        None => {
            return None;
        },
    };
    let function_call = match optional_object_field(value, "function_call") {
        None => {
            return None;
        },
        Some(None) => None,
        Some(Some(inner)) => match decode_function_call(inner) {
            Some(call) => Some(call),
            None => {
                return None;
            },
        },
    };
    Some(Message { role, content, name, function_call })
}

/// Reads one choice of a reply from a JSON value.
pub fn decode_choice(value: &serde_json::Value) -> (choice: Option<Choice>)
    ensures
        match choice {
            Some(c) => choice_of(json_content(*value)) == Some(c@),
            None => choice_of(json_content(*value)) is None,
        },
{
    let index = match unsigned_field(value, "index") {
        Some(index) => index,
        None => {
            return None;
        },
    };
    let inner = match object_field(value, "message") {
        Some(inner) => inner,
        None => {
            return None;
        },
    };
    let finish_reason = match text_field(value, "finish_reason") {
        Some(finish_reason) => finish_reason,
        None => {
            return None;
        },
    };
    match decode_message(inner) {
        Some(message) => Some(Choice { index, message, finish_reason }),
        None => None,
    }
}

/// Reads the token counters from a JSON value.
pub fn decode_usage(value: &serde_json::Value) -> (usage: Option<Usage>)
    ensures
        usage == usage_of(json_content(*value)),
{
    let prompt_tokens = match unsigned_field(value, "prompt_tokens") {
        Some(count) => count,
        None => {
            return None;
        },
    };
    let completion_tokens = match unsigned_field(value, "completion_tokens") {
        Some(count) => count,
        None => {
            return None;
        },
    };
    let total_tokens = match unsigned_field(value, "total_tokens") {
        Some(count) => count,
        None => {
            return None;
        },
    };
    Some(Usage { prompt_tokens, completion_tokens, total_tokens })
}

/// Reads the choices of a reply from the document that holds them.
fn decode_choices(value: &serde_json::Value) -> (choices: Option<Vec<Choice>>)
    ensures
        match choices {
            Some(list) => reply_choices_of(json_content(*value)) == Some(choice_views(list@)),
            None => reply_choices_of(json_content(*value)) is None,
        },
{
    let items = match array_field(value, "choices") {
        Some(items) => items,
        None => {
            return None;
        },
    };
    let ghost elements = contents(items@);
    let mut choices: Vec<Choice> = Vec::new();
    let mut i: usize = 0;
    while i < items.len()
        invariant
            i <= items.len(),
            elements == contents(items@),
            array_member(json_content(*value), "choices"@) == Some(elements),
            choices@.len() == i,
            forall|j: int| 0 <= j < i ==> (#[trigger] choice_of(elements[j])) == Some(choices@[j]@),
        decreases items.len() - i,
    {
        match decode_choice(&items[i]) {
            Some(choice) => {
                choices.push(choice);
            },
            None => {
                assert(choice_of(elements[i as int]) is None);
                return None;
            },
        }
        i = i + 1;
    }
    assert(choice_views(choices@) =~= choices_of(elements)->Some_0);
    Some(choices)
}

/// Reads a completed reply from a parsed JSON document.
pub fn decode_completion(value: &serde_json::Value) -> (result: Option<CompletionResult>)
    ensures
        match result {
            Some(r) => completion_result_of(json_content(*value)) == Some(r@),
            None => completion_result_of(json_content(*value)) is None,
        },
{
    let id = match text_field(value, "id") {
        Some(id) => id,
        None => {
            return None;
        },
    };
    let model = match text_field(value, "model") {
        Some(model) => model,
        None => {
            return None;
        },
    };
    let choices = match decode_choices(value) {
        Some(choices) => choices,
        None => {
            return None;
        },
    };
    let usage = match object_field(value, "usage") {
        Some(inner) => match decode_usage(inner) {
            Some(usage) => usage,
            None => {
                return None;
            },
        },
        None => {
            return None;
        },
    };
    Some(CompletionResult { id, model, choices, usage })
}

} // verus!
