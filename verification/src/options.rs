//! What a completion request carries: the model, the dialogue, the optional
//! function catalog and the request switches.

use crate::message::Message;
use vstd::prelude::*;

verus! {

/// The completion models that a session can select.
#[derive(Clone, Copy, Debug, PartialEq, Eq, Structural)]
pub enum Model {
    Gpt35Turbo,
    Gpt35Turbo0613,
    Gpt35Turbo16k,
    Gpt35Turbo16k0613,
    Gpt4,
    Gpt40613,
    Gpt432k,
    Gpt432k0613,
}

/// The model that a wire identifier denotes, if any.
pub open spec fn model_named(text: Seq<char>) -> Option<Model> {
    if text == "gpt-3.5-turbo"@ {
        Some(Model::Gpt35Turbo)
    } else if text == "gpt-3.5-turbo-0613"@ {
        Some(Model::Gpt35Turbo0613)
    } else if text == "gpt-3.5-turbo-16k"@ {
        Some(Model::Gpt35Turbo16k)
    } else if text == "gpt-3.5-turbo-16k-0613"@ {
        Some(Model::Gpt35Turbo16k0613)
    } else if text == "gpt-4"@ {
        Some(Model::Gpt4)
    } else if text == "gpt-4-0613"@ {
        Some(Model::Gpt40613)
    } else if text == "gpt-4-32k"@ {
        Some(Model::Gpt432k)
    } else if text == "gpt-4-32k-0613"@ {
        Some(Model::Gpt432k0613)
    } else {
        None
    }
}

impl Model {
    /// The wire identifier of the model.
    pub open spec fn name(self) -> Seq<char> {
        match self {
            Model::Gpt35Turbo => "gpt-3.5-turbo"@,
            Model::Gpt35Turbo0613 => "gpt-3.5-turbo-0613"@,
            Model::Gpt35Turbo16k => "gpt-3.5-turbo-16k"@,
            Model::Gpt35Turbo16k0613 => "gpt-3.5-turbo-16k-0613"@,
            Model::Gpt4 => "gpt-4"@,
            Model::Gpt40613 => "gpt-4-0613"@,
            Model::Gpt432k => "gpt-4-32k"@,
            Model::Gpt432k0613 => "gpt-4-32k-0613"@,
        }
    }

    /// The wire identifier of the model, as an owned string.
    pub fn parse_to_string(&self) -> (text: String)
        ensures
            text@ == self.name(),
    {
        match self {
            Model::Gpt35Turbo => "gpt-3.5-turbo".to_owned(),
            Model::Gpt35Turbo0613 => "gpt-3.5-turbo-0613".to_owned(),
            Model::Gpt35Turbo16k => "gpt-3.5-turbo-16k".to_owned(),
            Model::Gpt35Turbo16k0613 => "gpt-3.5-turbo-16k-0613".to_owned(),
            Model::Gpt4 => "gpt-4".to_owned(),
            Model::Gpt40613 => "gpt-4-0613".to_owned(),
            Model::Gpt432k => "gpt-4-32k".to_owned(),
            Model::Gpt432k0613 => "gpt-4-32k-0613".to_owned(),
        }
    }

    /// Reads a wire identifier back into a model; `None` for any other text.
    pub fn parse_to_model(input: &str) -> (model: Option<Model>)
        ensures
            model == model_named(input@),
    {
        let text = input.to_owned();
        if text == "gpt-3.5-turbo".to_owned() {
            Some(Model::Gpt35Turbo)
        } else if text == "gpt-3.5-turbo-0613".to_owned() {
            Some(Model::Gpt35Turbo0613)
        } else if text == "gpt-3.5-turbo-16k".to_owned() {
            Some(Model::Gpt35Turbo16k)
        } else if text == "gpt-3.5-turbo-16k-0613".to_owned() {
            Some(Model::Gpt35Turbo16k0613)
        } else if text == "gpt-4".to_owned() {
            Some(Model::Gpt4)
        } else if text == "gpt-4-0613".to_owned() {
            Some(Model::Gpt40613)
        } else if text == "gpt-4-32k".to_owned() {
            Some(Model::Gpt432k)
        } else if text == "gpt-4-32k-0613".to_owned() {
            Some(Model::Gpt432k0613)
        } else {
            None
        }
    }
}

/// The two directions of the model mapping are inverse to each other: every
/// model is read back from its own identifier, and an identifier that reads
/// as a model is that model's identifier.
pub proof fn lemma_model_round_trip(model: Model, text: Seq<char>)
    ensures
        model_named(model.name()) == Some(model),
        model_named(text) == Some(model) ==> text == model.name(),
{
    reveal_strlit("gpt-3.5-turbo");
    reveal_strlit("gpt-3.5-turbo-0613");
    reveal_strlit("gpt-3.5-turbo-16k");
    reveal_strlit("gpt-3.5-turbo-16k-0613");
    reveal_strlit("gpt-4");
    reveal_strlit("gpt-4-0613");
    reveal_strlit("gpt-4-32k");
    reveal_strlit("gpt-4-32k-0613");
    assert("gpt-3.5-turbo"@.len() == 13);
    assert("gpt-3.5-turbo-0613"@.len() == 18);
    assert("gpt-3.5-turbo-16k"@.len() == 17);
    assert("gpt-3.5-turbo-16k-0613"@.len() == 22);
    assert("gpt-4"@.len() == 5);
    assert("gpt-4-0613"@.len() == 10);
    assert("gpt-4-32k"@.len() == 9);
    assert("gpt-4-32k-0613"@.len() == 14);
}

/// A function that the model may ask to have called: its name, what it is
/// for, and the JSON schema of its parameters as text.
#[derive(Debug, PartialEq, Eq)]
pub struct Function {
    pub name: String,
    pub description: Option<String>,
    pub parameters: String,
}

impl Function {
    /// A catalog entry made of its three parts.
    pub fn new(name: String, description: Option<String>, parameters: String) -> (function: Self)
        ensures
            function.name == name,
            function.description == description,
            function.parameters == parameters,
    {
        Function { name, description, parameters }
    }
}

impl Clone for Function {
    fn clone(&self) -> (copy: Self)
        ensures
            copy == *self,
    {
        Function {
            name: self.name.clone(),
            description: self.description.clone(),
            parameters: self.parameters.clone(),
        }
    }
}

/// Whether, and which, function the model is to call.
#[derive(Debug, PartialEq, Eq)]
pub enum FunctionCallingSpecification {
    /// The model answers in text.
    Disabled,
    /// The model decides.
    Auto,
    /// The model calls the named function.
    Name(String),
}

impl Clone for FunctionCallingSpecification {
    fn clone(&self) -> (copy: Self)
        ensures
            copy == *self,
    {
        match self {
            FunctionCallingSpecification::Disabled => FunctionCallingSpecification::Disabled,
            FunctionCallingSpecification::Auto => FunctionCallingSpecification::Auto,
            FunctionCallingSpecification::Name(name) => FunctionCallingSpecification::Name(
                name.clone(),
            ),
        }
    }
}

/// One completion request. It is made afresh for each call. Real-valued
/// sampling parameters are not part of it: the transport adds them when it
/// encodes the request.
#[derive(Debug, PartialEq, Eq)]
pub struct Options {
    pub model: String,
    pub messages: Vec<Message>,
    pub functions: Option<Vec<Function>>,
    pub function_call: Option<FunctionCallingSpecification>,
    pub n: Option<u64>,
    pub stream: Option<bool>,
    pub stop: Option<Vec<String>>,
    pub max_tokens: Option<u64>,
    pub user: Option<String>,
}

impl Options {
    /// Whether the request asks for a streamed reply.
    pub open spec fn streams(&self) -> bool {
        self.stream == Some(true)
    }

    /// A request for `model` over `messages` with every switch left unset.
    pub fn new(model: String, messages: Vec<Message>) -> (options: Self)
        ensures
            options.model == model,
            options.messages == messages,
            options.functions is None,
            options.function_call is None,
            options.n is None,
            options.stream is None,
            options.stop is None,
            options.max_tokens is None,
            options.user is None,
    {
        Options {
            model,
            messages,
            functions: None,
            function_call: None,
            n: None,
            stream: None,
            stop: None,
            max_tokens: None,
            user: None,
        }
    }

    /// Whether the request asks for a streamed reply.
    pub fn is_streaming(&self) -> (streaming: bool)
        ensures
            streaming == self.streams(),
    {
        match self.stream {
            Some(flag) => flag,
            None => false,
        }
    }
}

} // verus!
