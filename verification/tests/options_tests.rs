use chat_gateway::message::{FunctionCall, Message, Role};
use chat_gateway::options::{Function, FunctionCallingSpecification, Model, Options};

const MODELS: [(Model, &str); 8] = [
    (Model::Gpt35Turbo, "gpt-3.5-turbo"),
    (Model::Gpt35Turbo0613, "gpt-3.5-turbo-0613"),
    (Model::Gpt35Turbo16k, "gpt-3.5-turbo-16k"),
    (Model::Gpt35Turbo16k0613, "gpt-3.5-turbo-16k-0613"),
    (Model::Gpt4, "gpt-4"),
    (Model::Gpt40613, "gpt-4-0613"),
    (Model::Gpt432k, "gpt-4-32k"),
    (Model::Gpt432k0613, "gpt-4-32k-0613"),
];

const ROLES: [(Role, &str); 4] = [
    (Role::System, "system"),
    (Role::Assistant, "assistant"),
    (Role::User, "user"),
    (Role::Function, "function"),
];

#[test]
fn every_model_has_its_identifier() {
    for (model, name) in MODELS {
        assert_eq!(model.parse_to_string(), name);
    }
}

#[test]
fn every_model_identifier_reads_back() {
    for (model, name) in MODELS {
        assert_eq!(Model::parse_to_model(name), Some(model));
        assert_eq!(Model::parse_to_model(&model.parse_to_string()), Some(model));
    }
}

#[test]
fn other_texts_name_no_model() {
    for text in ["", "gpt-5", "GPT-4", "gpt-4 ", " gpt-4", "gpt-3.5", "gpt-4-32k-0614"] {
        assert_eq!(Model::parse_to_model(text), None, "text: {:?}", text);
    }
}

#[test]
fn every_role_has_its_identifier() {
    for (role, name) in ROLES {
        assert_eq!(role.parse_to_string(), name);
    }
}

#[test]
fn every_role_identifier_reads_back() {
    for (role, name) in ROLES {
        assert_eq!(Role::parse_to_role(name), Some(role));
        assert_eq!(Role::parse_to_role(&role.parse_to_string()), Some(role));
    }
}

#[test]
fn other_texts_name_no_role() {
    for text in ["", "System", "users", "tool", "assistant\n"] {
        assert_eq!(Role::parse_to_role(text), None, "text: {:?}", text);
    }
}

#[test]
fn new_options_leave_every_switch_unset() {
    let messages = vec![Message::plain(Role::User, "hi".to_string())];
    let options = Options::new("gpt-4".to_string(), messages.clone());
    assert_eq!(options.model, "gpt-4");
    assert_eq!(options.messages, messages);
    assert_eq!(options.functions, None);
    assert_eq!(options.function_call, None);
    assert_eq!(options.n, None);
    assert_eq!(options.stream, None);
    assert_eq!(options.stop, None);
    assert_eq!(options.max_tokens, None);
    assert_eq!(options.user, None);
    assert!(!options.is_streaming());
}

#[test]
fn only_a_set_stream_flag_asks_for_a_stream() {
    let mut options = Options::new("gpt-4".to_string(), Vec::new());
    options.stream = Some(false);
    assert!(!options.is_streaming());
    options.stream = Some(true);
    assert!(options.is_streaming());
}

#[test]
fn plain_message_has_content_and_nothing_else() {
    let message = Message::plain(Role::Assistant, "text".to_string());
    assert_eq!(
        message,
        Message {
            role: Role::Assistant,
            content: Some("text".to_string()),
            name: None,
            function_call: None,
        }
    );
}

#[test]
fn clones_are_equal_to_what_they_copy() {
    let call = FunctionCall {
        name: "f".to_string(),
        arguments: "{}".to_string(),
    };
    assert_eq!(call.clone(), call);
    let message = Message {
        role: Role::Function,
        content: Some("c".to_string()),
        name: Some("n".to_string()),
        function_call: Some(call),
    };
    assert_eq!(message.clone(), message);
    let function = Function::new("f".to_string(), Some("d".to_string()), "{}".to_string());
    assert_eq!(function.clone(), function);
    assert_eq!(function.name, "f");
    assert_eq!(function.description, Some("d".to_string()));
    assert_eq!(function.parameters, "{}");
    for directive in [
        FunctionCallingSpecification::Disabled,
        FunctionCallingSpecification::Auto,
        FunctionCallingSpecification::Name("f".to_string()),
    ] {
        assert_eq!(directive.clone(), directive);
    }
}
