//! Dialogue roles and messages.

use crate::text::text_view;
use vstd::prelude::*;

verus! {

/// Who speaks a message.
#[derive(Clone, Copy, Debug, PartialEq, Eq, Structural)]
pub enum Role {
    System,
    Assistant,
    User,
    Function,
}

/// The role that a wire identifier denotes, if any.
pub open spec fn role_named(text: Seq<char>) -> Option<Role> {
    if text == "system"@ {
        Some(Role::System)
    } else if text == "assistant"@ {
        Some(Role::Assistant)
    } else if text == "user"@ {
        Some(Role::User)
    } else if text == "function"@ {
        Some(Role::Function)
    } else {
        None
    }
}

impl Role {
    /// The wire identifier of the role.
    pub open spec fn name(self) -> Seq<char> {
        match self {
            Role::System => "system"@,
            Role::Assistant => "assistant"@,
            Role::User => "user"@,
            Role::Function => "function"@,
        }
    }

    /// The wire identifier of the role, as an owned string.
    pub fn parse_to_string(&self) -> (text: String)
        ensures
            text@ == self.name(),
    {
        match self {
            Role::System => "system".to_owned(),
            Role::Assistant => "assistant".to_owned(),
            Role::User => "user".to_owned(),
            Role::Function => "function".to_owned(),
        }
    }

    /// Reads a wire identifier back into a role; `None` for any other text.
    pub fn parse_to_role(input: &str) -> (role: Option<Role>)
        ensures
            role == role_named(input@),
    {
        let text = input.to_owned();
        if text == "system".to_owned() {
            Some(Role::System)
        } else if text == "assistant".to_owned() {
            Some(Role::Assistant)
        } else if text == "user".to_owned() {
            Some(Role::User)
        } else if text == "function".to_owned() {
            Some(Role::Function)
        } else {
            None
        }
    }
}

/// The two directions of the role mapping are inverse to each other: every
/// role is read back from its own identifier, and an identifier that reads as
/// a role is that role's identifier.
pub proof fn lemma_role_round_trip(role: Role, text: Seq<char>)
    ensures
        role_named(role.name()) == Some(role),
        role_named(text) == Some(role) ==> text == role.name(),
{
    reveal_strlit("system");
    reveal_strlit("assistant");
    reveal_strlit("user");
    reveal_strlit("function");
    assert("system"@.len() == 6);
    assert("assistant"@.len() == 9);
    assert("user"@.len() == 4);
    assert("function"@.len() == 8);
}

/// A structured action that the model asks for: a function name and its
/// arguments as JSON text.
#[derive(Debug, PartialEq, Eq)]
pub struct FunctionCall {
    pub name: String,
    pub arguments: String,
}

/// A function call with its strings as sequences of characters.
pub struct FunctionCallView {
    pub name: Seq<char>,
    pub arguments: Seq<char>,
}

impl View for FunctionCall {
    type V = FunctionCallView;

    open spec fn view(&self) -> FunctionCallView {
        FunctionCallView { name: self.name@, arguments: self.arguments@ }
    }
}

impl Clone for FunctionCall {
    fn clone(&self) -> (copy: Self)
        ensures
            copy == *self,
    {
        FunctionCall { name: self.name.clone(), arguments: self.arguments.clone() }
    }
}

/// One turn of a dialogue.
#[derive(Debug, PartialEq, Eq)]
pub struct Message {
    pub role: Role,
    pub content: Option<String>,
    pub name: Option<String>,
    pub function_call: Option<FunctionCall>,
}

/// A message with its strings as sequences of characters.
pub struct MessageView {
    pub role: Role,
    pub content: Option<Seq<char>>,
    pub name: Option<Seq<char>>,
    pub function_call: Option<FunctionCallView>,
}

impl View for Message {
    type V = MessageView;

    open spec fn view(&self) -> MessageView {
        MessageView {
            role: self.role,
            content: text_view(self.content),
            name: text_view(self.name),
            function_call: match self.function_call {
                Some(call) => Some(call@),
                None => None,
            },
        }
    }
}

impl Clone for Message {
    fn clone(&self) -> (copy: Self)
        ensures
            copy == *self,
    {
        Message {
            role: self.role,
            content: self.content.clone(),
            name: self.name.clone(),
            function_call: self.function_call.clone(),
        }
    }
}

/// A message that carries only text: no name and no function call.
pub open spec fn plain_message(role: Role, content: Seq<char>) -> MessageView {
    MessageView { role, content: Some(content), name: None, function_call: None }
}

impl Message {
    /// A message of `role` that carries `content` and nothing else.
    pub fn plain(role: Role, content: String) -> (message: Message)
        ensures
            message@ == plain_message(role, content@),
            message.content == Some(content),
    {
        Message { role, content: Some(content), name: None, function_call: None }
    }
}

/// The system message that carries `text`.
pub open spec fn system_message(text: Seq<char>) -> MessageView {
    plain_message(Role::System, text)
}

/// The messages of a request: the system prompt, then the retrieved context
/// where there is one, then the history.
pub open spec fn request_messages(
    prompt: Seq<char>,
    retrieved: Option<Seq<char>>,
    context: Seq<MessageView>,
) -> Seq<MessageView> {
    match retrieved {
        Some(memory) => seq![system_message(prompt), system_message(memory)] + context,
        None => seq![system_message(prompt)] + context,
    }
}

/// The views of a sequence of messages, in the same order.
pub open spec fn message_views(messages: Seq<Message>) -> Seq<MessageView> {
    messages.map_values(|m: Message| m@)
}

} // verus!
