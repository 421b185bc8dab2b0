use std::sync::Arc;

use chat_gateway::client::{complete_chat_stream, read_completion};
use chat_gateway::message::{Message, Role};
use chat_gateway::options::Model;
use chat_gateway::session::SessionState;
use tokio::sync::Mutex;

fn plain(role: Role, text: &str) -> Message {
    Message::plain(role, text.to_string())
}

fn reply_body(content: &str) -> Vec<u8> {
    format!(
        "{{\"id\":\"c\",\"model\":\"m\",\"choices\":[{{\"index\":0,\"message\":{{\"role\":\"assistant\",\"content\":\"{}\"}},\"finish_reason\":\"stop\"}}],\"usage\":{{\"prompt_tokens\":1,\"completion_tokens\":1,\"total_tokens\":2}}}}",
        content
    )
    .into_bytes()
}

fn stream_body(content: &str) -> Vec<Vec<u8>> {
    let line = format!(
        "data: {{\"choices\":[{{\"delta\":{{\"content\":\"{}\"}},\"index\":0}}]}}\n\ndata: [DONE]\n\n",
        content
    );
    line.into_bytes().chunks(7).map(|piece| piece.to_vec()).collect()
}

async fn streamed_request(state: Arc<Mutex<SessionState>>, question: &str, answer: &str) {
    let mut guard = state.lock().await;
    let options = guard.begin_turn(question.to_string(), None, true);
    for _ in 0..50 {
        tokio::task::yield_now().await;
    }
    let report = complete_chat_stream(&options, 200, &stream_body(answer));
    for _ in 0..50 {
        tokio::task::yield_now().await;
    }
    guard.complete_stream_turn(&report.result);
}

async fn plain_request(state: Arc<Mutex<SessionState>>, question: &str, answer: &str) {
    let mut guard = state.lock().await;
    let _ = guard.begin_turn(question.to_string(), None, false);
    for _ in 0..50 {
        tokio::task::yield_now().await;
    }
    let outcome = read_completion(&reply_body(answer));
    let _ = guard.complete_turn(outcome);
}

#[test]
fn concurrent_requests_under_the_lock_are_never_interleaved() {
    let runtime = tokio::runtime::Builder::new_multi_thread()
        .worker_threads(4)
        .build()
        .unwrap();
    for round in 0..200 {
        let mut session =
            SessionState::new(Model::Gpt4, "prompt".to_string(), 16, None, None);
        session.context_memory.add(plain(Role::User, "before"));
        let state = Arc::new(Mutex::new(session));
        let first = runtime.spawn(streamed_request(state.clone(), "q1", "t1"));
        let second = runtime.spawn(plain_request(state.clone(), "q2", "c2"));
        runtime.block_on(async {
            first.await.unwrap();
            second.await.unwrap();
        });
        let history = runtime.block_on(async { state.lock().await.context_memory.get() });
        let streamed = vec![plain(Role::User, "q1"), plain(Role::Assistant, "t1")];
        let single = vec![plain(Role::User, "q2"), plain(Role::Assistant, "c2")];
        let mut one_way = vec![plain(Role::User, "before")];
        one_way.extend(streamed.clone());
        one_way.extend(single.clone());
        let mut other_way = vec![plain(Role::User, "before")];
        other_way.extend(single);
        other_way.extend(streamed);
        assert!(
            history == one_way || history == other_way,
            "round {}: {:?}",
            round,
            history
        );
    }
}
