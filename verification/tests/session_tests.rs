use chat_gateway::client::{complete_chat, complete_chat_stream, read_completion};
use chat_gateway::completion::CompletionResult;
use chat_gateway::error::{ChunkFault, CompletionError, TurnError};
use chat_gateway::function_call::{ExtractedCall, ExtractionError};
use chat_gateway::message::{FunctionCall, Message, Role};
use chat_gateway::options::{Function, FunctionCallingSpecification, Model};
use chat_gateway::retrieval::{self, DataBase, MetaData, PayloadField, RecordError};
use chat_gateway::session::{build_messages, read_function_call, RecordingPolicy, SessionState};

fn session(capacity: usize) -> SessionState {
    SessionState::new(
        Model::Gpt35Turbo0613,
        "Your are an AI assistant.".to_string(),
        capacity,
        None,
        None,
    )
}

fn catalog() -> Vec<Function> {
    vec![Function::new(
        "reaction_generator".to_string(),
        Some("Generate a reaction.".to_string()),
        "{\"type\":\"object\"}".to_string(),
    )]
}

fn text_reply(content: &str) -> CompletionResult {
    let body = format!(
        "{{\"id\":\"c\",\"model\":\"gpt-3.5-turbo-0613\",\"choices\":[{{\"index\":0,\"message\":{{\"role\":\"assistant\",\"content\":\"{}\"}},\"finish_reason\":\"stop\"}}],\"usage\":{{\"prompt_tokens\":1,\"completion_tokens\":1,\"total_tokens\":2}}}}",
        content
    );
    read_completion(body.as_bytes()).unwrap()
}

fn call_reply(arguments: &str) -> CompletionResult {
    let escaped = arguments.replace('"', "\\\"");
    let body = format!(
        "{{\"id\":\"c\",\"model\":\"gpt-4\",\"choices\":[{{\"index\":0,\"message\":{{\"role\":\"assistant\",\"content\":null,\"function_call\":{{\"name\":\"reaction_generator\",\"arguments\":\"{}\"}}}},\"finish_reason\":\"function_call\"}}],\"usage\":{{\"prompt_tokens\":1,\"completion_tokens\":1,\"total_tokens\":2}}}}",
        escaped
    );
    read_completion(body.as_bytes()).unwrap()
}

fn empty_reply() -> CompletionResult {
    let body = "{\"id\":\"c\",\"model\":\"m\",\"choices\":[],\"usage\":{\"prompt_tokens\":1,\"completion_tokens\":0,\"total_tokens\":1}}";
    read_completion(body.as_bytes()).unwrap()
}

fn silent_reply() -> CompletionResult {
    let body = "{\"id\":\"c\",\"model\":\"m\",\"choices\":[{\"index\":0,\"message\":{\"role\":\"assistant\"},\"finish_reason\":\"stop\"}],\"usage\":{\"prompt_tokens\":1,\"completion_tokens\":0,\"total_tokens\":1}}";
    read_completion(body.as_bytes()).unwrap()
}

fn plain(role: Role, text: &str) -> Message {
    Message::plain(role, text.to_string())
}

fn shape() -> Vec<String> {
    vec!["emotion".to_string(), "motion".to_string(), "cry".to_string()]
}

#[test]
fn build_messages_puts_the_prompt_first() {
    let context = vec![plain(Role::User, "hi"), plain(Role::Assistant, "hello")];
    let messages = build_messages("be kind".to_string(), context.clone());
    assert_eq!(
        messages,
        vec![
            plain(Role::System, "be kind"),
            plain(Role::User, "hi"),
            plain(Role::Assistant, "hello"),
        ]
    );
    assert_eq!(
        build_messages("alone".to_string(), Vec::new()),
        vec![plain(Role::System, "alone")]
    );
}

#[test]
fn build_messages_with_memory_puts_it_second() {
    let context = vec![plain(Role::User, "hi")];
    let messages = retrieval::build_messages(
        "be kind".to_string(),
        "Score = 0.9, bob -> AI: earlier\n".to_string(),
        context,
    );
    assert_eq!(
        messages,
        vec![
            plain(Role::System, "be kind"),
            plain(Role::System, "Score = 0.9, bob -> AI: earlier\n"),
            plain(Role::User, "hi"),
        ]
    );
}

#[test]
fn chat_turn_records_user_and_assistant() {
    let mut state = session(10);
    let options = state.begin_turn("Hello!".to_string(), None, false);
    assert_eq!(options.model, "gpt-3.5-turbo-0613");
    assert_eq!(options.stream, None);
    assert_eq!(options.functions, None);
    assert_eq!(options.function_call, None);
    assert_eq!(
        options.messages,
        vec![
            plain(Role::System, "Your are an AI assistant."),
            plain(Role::User, "Hello!"),
        ]
    );
    let outcome = complete_chat(&options, 200, b"");
    assert!(outcome.is_err());
    let reply = state.complete_turn(Ok(text_reply("Hi, how can I help?")));
    assert_eq!(reply, Ok("Hi, how can I help?".to_string()));
    assert_eq!(
        state.context_memory.get(),
        vec![
            plain(Role::User, "Hello!"),
            plain(Role::Assistant, "Hi, how can I help?"),
        ]
    );
}

#[test]
fn chat_turn_with_retrieved_context_sends_it_after_the_prompt() {
    let mut state = session(10);
    let options = state.begin_turn(
        "What did I say?".to_string(),
        Some("Score = 1, ann -> AI: I like tea\n".to_string()),
        false,
    );
    assert_eq!(
        options.messages,
        vec![
            plain(Role::System, "Your are an AI assistant."),
            plain(Role::System, "Score = 1, ann -> AI: I like tea\n"),
            plain(Role::User, "What did I say?"),
        ]
    );
    assert_eq!(
        state.context_memory.get(),
        vec![plain(Role::User, "What did I say?")]
    );
}

#[test]
fn failed_chat_turn_keeps_the_user_message_only() {
    let mut state = session(10);
    let _ = state.begin_turn("Hello!".to_string(), None, false);
    let failure = CompletionError::UpstreamHttp {
        status: 500,
        body: "down".to_string(),
    };
    assert_eq!(
        state.complete_turn(Err(failure.clone())),
        Err(TurnError::Completion(failure))
    );
    assert_eq!(state.complete_turn(Ok(empty_reply())), Err(TurnError::NoChoices));
    assert_eq!(state.complete_turn(Ok(silent_reply())), Err(TurnError::NoContent));
    assert_eq!(state.context_memory.get(), vec![plain(Role::User, "Hello!")]);
}

#[test]
fn streamed_turn_asks_for_a_stream_and_records_the_whole_reply() {
    let mut state = session(10);
    let options = state.begin_turn("Tell me".to_string(), None, true);
    assert_eq!(options.stream, Some(true));
    assert_eq!(
        options.messages,
        vec![
            plain(Role::System, "Your are an AI assistant."),
            plain(Role::User, "Tell me"),
        ]
    );
    let body = b"data: {\"choices\":[{\"delta\":{\"content\":\"Sure\"},\"index\":0}]}\n\ndata: {\"choices\":[{\"delta\":{\"content\":\" thing\"},\"index\":0}]}\n\ndata: [DONE]\n\n".to_vec();
    let report = complete_chat_stream(&options, 200, &vec![body]);
    state.complete_stream_turn(&report.result);
    assert_eq!(
        state.context_memory.get(),
        vec![plain(Role::User, "Tell me"), plain(Role::Assistant, "Sure thing")]
    );
}

#[test]
fn failed_streamed_turn_abandons_the_update() {
    let mut state = session(10);
    let options = state.begin_turn("Tell me".to_string(), None, true);
    let body = b"data: {\"choices\":[{\"delta\":{\"content\":\"Su\"},\"index\":0}]}\ndata: ???\n".to_vec();
    let report = complete_chat_stream(&options, 200, &vec![body]);
    assert_eq!(
        report.result,
        Err(CompletionError::MalformedChunk(ChunkFault::InvalidJson))
    );
    state.complete_stream_turn(&report.result);
    assert_eq!(state.context_memory.get(), vec![plain(Role::User, "Tell me")]);
}

#[test]
fn session_settings_survive_every_step() {
    let mut state = SessionState::new(Model::Gpt4, "prompt".to_string(), 4, Some(catalog()), None);
    let _ = state.begin_turn("a".to_string(), None, false);
    let _ = state.complete_turn(Ok(text_reply("b")));
    let _ = state.begin_turn("c".to_string(), None, true);
    state.complete_stream_turn(&Ok("d".to_string()));
    let _ = state.begin_function_turn(
        "e".to_string(),
        FunctionCallingSpecification::Auto,
        RecordingPolicy::Record,
    );
    let _ = state.complete_function_turn(
        Ok(call_reply("{}")),
        &shape(),
        RecordingPolicy::Record,
    );
    assert_eq!(state.model, Model::Gpt4);
    assert_eq!(state.prompt, "prompt");
    assert_eq!(state.functions, Some(catalog()));
    assert_eq!(state.context_memory.max_size(), 4);
    assert_eq!(state.context_memory.len(), 4);
}

#[test]
fn history_is_bounded_across_turns() {
    let mut state = session(3);
    for i in 0..4 {
        let _ = state.begin_turn(format!("question {}", i), None, false);
        let _ = state.complete_turn(Ok(text_reply(&format!("answer {}", i))));
    }
    assert_eq!(
        state.context_memory.get(),
        vec![
            plain(Role::Assistant, "answer 2"),
            plain(Role::User, "question 3"),
            plain(Role::Assistant, "answer 3"),
        ]
    );
}

#[test]
fn recorded_function_turn_adds_user_message_and_call() {
    let mut state = SessionState::new(Model::Gpt4, "prompt".to_string(), 10, Some(catalog()), None);
    let directive = FunctionCallingSpecification::Name("reaction_generator".to_string());
    let options =
        state.begin_function_turn("Good morning".to_string(), directive.clone(), RecordingPolicy::Record);
    assert_eq!(options.model, "gpt-4");
    assert_eq!(options.stream, None);
    assert_eq!(options.functions, Some(catalog()));
    assert_eq!(options.function_call, Some(directive));
    assert_eq!(
        options.messages,
        vec![plain(Role::System, "prompt"), plain(Role::User, "Good morning")]
    );
    let arguments = "{\"emotion\":\"EMOTION_HAPPY\",\"motion\":\"MOTION_HAPPY\",\"cry\":\"CRY_HAPPY\"}";
    let reply = state.complete_function_turn(
        Ok(call_reply(arguments)),
        &shape(),
        RecordingPolicy::Record,
    );
    assert_eq!(
        reply,
        Ok(ExtractedCall {
            name: "reaction_generator".to_string(),
            arguments: vec![
                "EMOTION_HAPPY".to_string(),
                "MOTION_HAPPY".to_string(),
                "CRY_HAPPY".to_string(),
            ],
        })
    );
    assert_eq!(
        state.context_memory.get(),
        vec![
            plain(Role::User, "Good morning"),
            Message {
                role: Role::Function,
                content: None,
                name: None,
                function_call: Some(FunctionCall {
                    name: "reaction_generator".to_string(),
                    arguments: arguments.to_string(),
                }),
            },
        ]
    );
}

#[test]
fn side_query_leaves_the_shared_history_alone() {
    let mut state = SessionState::new(Model::Gpt4, "prompt".to_string(), 10, Some(catalog()), None);
    let _ = state.begin_turn("earlier".to_string(), None, false);
    let _ = state.complete_turn(Ok(text_reply("noted")));
    let before = state.context_memory.get();
    let options = state.begin_function_turn(
        "How are you feeling now?".to_string(),
        FunctionCallingSpecification::Auto,
        RecordingPolicy::SideQuery,
    );
    assert_eq!(
        options.messages,
        vec![
            plain(Role::System, "prompt"),
            plain(Role::User, "earlier"),
            plain(Role::Assistant, "noted"),
            plain(Role::User, "How are you feeling now?"),
        ]
    );
    assert_eq!(options.function_call, Some(FunctionCallingSpecification::Auto));
    assert_eq!(state.context_memory.get(), before);
    let reply = state.complete_function_turn(
        Ok(call_reply("{\"emotion\":\"E\",\"motion\":\"M\",\"cry\":\"C\"}")),
        &shape(),
        RecordingPolicy::SideQuery,
    );
    assert!(reply.is_ok());
    assert_eq!(state.context_memory.get(), before);
}

#[test]
fn function_turn_failures_are_told_apart() {
    let mut state = session(10);
    let policy = RecordingPolicy::SideQuery;
    assert_eq!(
        state.complete_function_turn(Err(CompletionError::ModeViolation), &shape(), policy),
        Err(TurnError::Completion(CompletionError::ModeViolation))
    );
    assert_eq!(
        state.complete_function_turn(Ok(empty_reply()), &shape(), policy),
        Err(TurnError::NoChoices)
    );
    assert_eq!(
        state.complete_function_turn(Ok(text_reply("words")), &shape(), policy),
        Err(TurnError::NoFunctionCall)
    );
    assert_eq!(
        state.complete_function_turn(Ok(call_reply("not json")), &shape(), policy),
        Err(TurnError::Extraction(ExtractionError::MalformedArguments))
    );
    assert_eq!(
        state.complete_function_turn(Ok(call_reply("{\"emotion\":\"E\"}")), &shape(), policy),
        Err(TurnError::Extraction(ExtractionError::ShapeMismatch))
    );
    assert_eq!(state.context_memory.len(), 0);
}

#[test]
fn recorded_call_stays_even_when_its_arguments_cannot_be_read() {
    let mut state = session(10);
    let reply = state.complete_function_turn(
        Ok(call_reply("not json")),
        &shape(),
        RecordingPolicy::Record,
    );
    assert_eq!(
        reply,
        Err(TurnError::Extraction(ExtractionError::MalformedArguments))
    );
    assert_eq!(state.context_memory.len(), 1);
    assert_eq!(state.context_memory.get()[0].role, Role::Function);
}

#[test]
fn two_requests_one_after_the_other_lose_and_repeat_nothing() {
    for streamed_first in [true, false] {
        let mut state = session(10);
        let order: [(&str, &str, bool); 2] = if streamed_first {
            [("s-question", "s-answer", true), ("p-question", "p-answer", false)]
        } else {
            [("p-question", "p-answer", false), ("s-question", "s-answer", true)]
        };
        for (question, answer, streamed) in order {
            let _ = state.begin_turn(question.to_string(), None, streamed);
            if streamed {
                state.complete_stream_turn(&Ok(answer.to_string()));
            } else {
                let _ = state.complete_turn(Ok(text_reply(answer)));
            }
        }
        let history = state.context_memory.get();
        assert_eq!(history.len(), 4);
        for text in ["s-question", "s-answer", "p-question", "p-answer"] {
            let count = history
                .iter()
                .filter(|message| message.content.as_deref() == Some(text))
                .count();
            assert_eq!(count, 1, "{} occurs {} times", text, count);
        }
        assert_eq!(history[0].content.as_deref(), Some(order[0].0));
        assert_eq!(history[1].content.as_deref(), Some(order[0].1));
        assert_eq!(history[2].content.as_deref(), Some(order[1].0));
        assert_eq!(history[3].content.as_deref(), Some(order[1].1));
    }
}

fn recording_session() -> SessionState {
    SessionState::new(
        Model::Gpt4,
        "prompt".to_string(),
        10,
        None,
        Some(DataBase::new("session".to_string())),
    )
}

fn payload(moment: &str, author: &str, addressee: &str) -> Vec<PayloadField> {
    vec![
        PayloadField {
            key: "datetime".to_string(),
            value: moment.to_string(),
        },
        PayloadField {
            key: "author".to_string(),
            value: author.to_string(),
        },
        PayloadField {
            key: "addressee".to_string(),
            value: addressee.to_string(),
        },
    ]
}

#[test]
fn session_without_retrieval_records_nothing() {
    let mut state = session(10);
    assert_eq!(state.plan_user_record(0, "ann".to_string()), None);
    assert_eq!(state.plan_model_record(0, "ann".to_string()), None);
    assert_eq!(state.plan_record(&MetaData::of_user_turn(0, "ann".to_string())), None);
    assert_eq!(state.retrieval, None);
}

#[test]
fn recorded_turns_get_identifiers_in_order() {
    let mut state = recording_session();
    let _ = state.begin_turn("hello".to_string(), None, false);
    let said = state.plan_user_record(1000, "ann".to_string()).unwrap().unwrap();
    assert_eq!(said.id, 0);
    assert_eq!(said.payload, payload("1970-01-01T00:00:01.000", "ann", "AI"));
    let _ = state.complete_turn(Ok(text_reply("hi")));
    let answered = state.plan_model_record(2000, "ann".to_string()).unwrap().unwrap();
    assert_eq!(answered.id, 1);
    assert_eq!(answered.payload, payload("1970-01-01T00:00:02.000", "AI", "ann"));
    assert_eq!(state.retrieval.as_ref().map(|database| database.index), Some(2));
    assert_eq!(
        state.retrieval.as_ref().map(|database| database.name.clone()),
        Some("session".to_string())
    );
    assert_eq!(state.context_memory.len(), 2);
}

#[test]
fn turn_that_cannot_be_recorded_leaves_the_bookkeeping_alone() {
    let mut state = recording_session();
    assert_eq!(
        state.plan_user_record(i64::MAX, "ann".to_string()),
        Some(Err(RecordError::InvalidMoment))
    );
    assert_eq!(state.retrieval.as_ref().map(|database| database.index), Some(0));
    state.retrieval = Some(DataBase {
        name: "session".to_string(),
        index: u64::MAX,
    });
    assert_eq!(
        state.plan_model_record(0, "ann".to_string()),
        Some(Err(RecordError::Exhausted))
    );
    assert_eq!(
        state.retrieval.as_ref().map(|database| database.index),
        Some(u64::MAX)
    );
}

#[test]
fn dialogue_steps_leave_the_bookkeeping_alone() {
    let mut state = recording_session();
    let _ = state.plan_user_record(0, "ann".to_string());
    let _ = state.begin_turn("a".to_string(), None, true);
    state.complete_stream_turn(&Ok("b".to_string()));
    let _ = state.begin_function_turn(
        "c".to_string(),
        FunctionCallingSpecification::Auto,
        RecordingPolicy::Record,
    );
    assert_eq!(
        state.retrieval,
        Some(DataBase {
            name: "session".to_string(),
            index: 1
        })
    );
}

#[test]
fn side_query_answers_with_the_call_as_the_model_made_it() {
    let odd = "{\"city\":\"Oslo\",\"days\":3}";
    assert_eq!(
        read_function_call(Ok(call_reply(odd))),
        Ok(FunctionCall {
            name: "reaction_generator".to_string(),
            arguments: odd.to_string(),
        })
    );
    assert_eq!(
        read_function_call(Ok(call_reply("not json at all"))),
        Ok(FunctionCall {
            name: "reaction_generator".to_string(),
            arguments: "not json at all".to_string(),
        })
    );
}

#[test]
fn side_query_failures_are_told_apart() {
    assert_eq!(
        read_function_call(Err(CompletionError::ModeViolation)),
        Err(TurnError::Completion(CompletionError::ModeViolation))
    );
    assert_eq!(read_function_call(Ok(empty_reply())), Err(TurnError::NoChoices));
    assert_eq!(
        read_function_call(Ok(text_reply("words"))),
        Err(TurnError::NoFunctionCall)
    );
}

#[test]
fn history_handed_out_by_a_session_is_within_its_capacity() {
    let mut state = session(2);
    for i in 0..5 {
        let _ = state.begin_turn(format!("q{}", i), None, false);
        assert!(state.context_memory.len() <= state.context_memory.max_size());
        let copy = state.context_memory.clone();
        assert!(copy.len() <= copy.max_size());
        assert_eq!(copy.max_size(), 2);
    }
}
