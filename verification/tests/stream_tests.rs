use chat_gateway::chunk::{process_chunk, LineOutcome};
use chat_gateway::client::complete_chat_stream;
use chat_gateway::error::{ChunkFault, CompletionError};
use chat_gateway::options::Options;
use chat_gateway::stream::{ReplyAssembler, StreamReport};

fn streaming_options() -> Options {
    let mut options = Options::new("gpt-3.5-turbo".to_string(), Vec::new());
    options.stream = Some(true);
    options
}

fn content_line(content: &str) -> String {
    format!(
        "data: {{\"id\":\"chatcmpl-1\",\"object\":\"chat.completion.chunk\",\"created\":1,\"model\":\"gpt-3.5-turbo\",\"choices\":[{{\"delta\":{{\"content\":\"{}\"}},\"index\":0,\"finish_reason\":null}}]}}",
        content
    )
}

fn role_line() -> String {
    "data: {\"id\":\"chatcmpl-1\",\"object\":\"chat.completion.chunk\",\"created\":1,\"model\":\"gpt-3.5-turbo\",\"choices\":[{\"delta\":{\"role\":\"assistant\"},\"index\":0,\"finish_reason\":null}]}".to_string()
}

fn finish_line() -> String {
    "data: {\"id\":\"chatcmpl-1\",\"object\":\"chat.completion.chunk\",\"created\":1,\"model\":\"gpt-3.5-turbo\",\"choices\":[{\"delta\":{},\"index\":0,\"finish_reason\":\"stop\"}]}".to_string()
}

fn reads_of(lines: &[String]) -> Vec<Vec<u8>> {
    lines
        .iter()
        .map(|line| format!("{}\n\n", line).into_bytes())
        .collect()
}

fn run(lines: &[String]) -> StreamReport {
    complete_chat_stream(&streaming_options(), 200, &reads_of(lines))
}

#[test]
fn three_fragments_are_forwarded_in_order_and_joined() {
    let report = run(&[
        content_line("Hel"),
        content_line("lo"),
        content_line(" world"),
        finish_line(),
        "data: [DONE]".to_string(),
    ]);
    assert_eq!(
        report.items,
        vec![
            Ok("Hel".to_string()),
            Ok("lo".to_string()),
            Ok(" world".to_string()),
        ]
    );
    assert_eq!(report.result, Ok("Hello world".to_string()));
}

#[test]
fn role_announcement_is_not_forwarded_and_not_part_of_the_reply() {
    let report = run(&[role_line(), "data: [DONE]".to_string()]);
    assert!(report.items.is_empty());
    assert_eq!(report.result, Ok(String::new()));
}

#[test]
fn role_then_content_gives_only_the_content() {
    let report = run(&[
        role_line(),
        content_line("Hi"),
        finish_line(),
        "data: [DONE]".to_string(),
    ]);
    assert_eq!(report.items, vec![Ok("Hi".to_string())]);
    assert_eq!(report.result, Ok("Hi".to_string()));
}

#[test]
fn malformed_first_line_fails_the_call_and_is_the_only_item() {
    let report = run(&["data: {not json".to_string(), content_line("late")]);
    let failure = CompletionError::MalformedChunk(ChunkFault::InvalidJson);
    assert_eq!(report.items, vec![Err(failure.clone())]);
    assert_eq!(report.result, Err(failure));
}

#[test]
fn failure_after_fragments_discards_the_partial_reply() {
    let report = run(&[content_line("par"), content_line("tial"), "data: oops".to_string()]);
    let failure = CompletionError::MalformedChunk(ChunkFault::InvalidJson);
    assert_eq!(
        report.items,
        vec![
            Ok("par".to_string()),
            Ok("tial".to_string()),
            Err(failure.clone()),
        ]
    );
    assert_eq!(report.result, Err(failure));
}

#[test]
fn nothing_is_read_after_the_sentinel() {
    let report = run(&[
        content_line("kept"),
        "data: [DONE]".to_string(),
        content_line("ignored"),
        "data: {broken".to_string(),
    ]);
    assert_eq!(report.items, vec![Ok("kept".to_string())]);
    assert_eq!(report.result, Ok("kept".to_string()));
}

#[test]
fn body_that_ends_without_sentinel_still_gives_the_reply() {
    let report = run(&[content_line("open"), content_line(" end")]);
    assert_eq!(report.result, Ok("open end".to_string()));
    assert_eq!(report.items.len(), 2);
}

#[test]
fn empty_body_gives_an_empty_reply() {
    let report = complete_chat_stream(&streaming_options(), 200, &Vec::new());
    assert!(report.items.is_empty());
    assert_eq!(report.result, Ok(String::new()));
}

#[test]
fn several_lines_in_one_read_are_taken_in_order() {
    let body = format!(
        "{}\n\n{}\n\n{}\n\ndata: [DONE]\n\n",
        content_line("a"),
        content_line("b"),
        content_line("c")
    );
    let report = complete_chat_stream(&streaming_options(), 200, &vec![body.into_bytes()]);
    assert_eq!(
        report.items,
        vec![Ok("a".to_string()), Ok("b".to_string()), Ok("c".to_string())]
    );
    assert_eq!(report.result, Ok("abc".to_string()));
}

#[test]
fn read_without_trailing_line_feed_is_taken_as_a_line() {
    let report = complete_chat_stream(
        &streaming_options(),
        200,
        &vec![content_line("solo").into_bytes()],
    );
    assert_eq!(report.items, vec![Ok("solo".to_string())]);
    assert_eq!(report.result, Ok("solo".to_string()));
}

#[test]
fn chunk_without_content_role_or_finish_is_rejected() {
    let line = "data: {\"choices\":[{\"delta\":{},\"index\":0,\"finish_reason\":null}]}";
    let report = run(&[content_line("x"), line.to_string()]);
    let failure = CompletionError::MalformedChunk(ChunkFault::NoContent);
    assert_eq!(report.items, vec![Ok("x".to_string()), Err(failure.clone())]);
    assert_eq!(report.result, Err(failure));
}

#[test]
fn chunk_without_choices_is_rejected() {
    let report = run(&["data: {\"choices\":[]}".to_string()]);
    let failure = CompletionError::MalformedChunk(ChunkFault::NoChoices);
    assert_eq!(report.items, vec![Err(failure.clone())]);
    assert_eq!(report.result, Err(failure));
}

#[test]
fn document_of_another_shape_is_rejected() {
    for line in [
        "data: {\"choices\":\"none\"}",
        "data: {}",
        "data: [1,2,3]",
        "data: 42",
        "data: {\"choices\":[{\"index\":0,\"finish_reason\":null}]}",
        "data: {\"choices\":[{\"delta\":[],\"index\":0}]}",
        "data: {\"choices\":[{\"delta\":{},\"index\":\"0\"}]}",
        "data: {\"choices\":[{\"delta\":{},\"index\":-1}]}",
        "data: {\"choices\":[{\"delta\":{},\"index\":1.5}]}",
        "data: {\"choices\":[{\"delta\":{\"content\":7},\"index\":0}]}",
        "data: {\"choices\":[{\"delta\":{\"role\":false},\"index\":0}]}",
        "data: {\"choices\":[{\"delta\":{},\"index\":0,\"finish_reason\":3}]}",
        "data: {\"choices\":[{\"delta\":{\"content\":\"ok\"},\"index\":0},{\"delta\":7,\"index\":1}]}",
    ] {
        assert_eq!(
            process_chunk(line),
            LineOutcome::Rejected(ChunkFault::UnexpectedShape),
            "line: {}",
            line
        );
    }
}

#[test]
fn absent_and_null_members_read_alike() {
    let absent = "data: {\"choices\":[{\"delta\":{\"content\":\"c\"},\"index\":0}]}";
    let null = "data: {\"choices\":[{\"delta\":{\"role\":null,\"content\":\"c\"},\"index\":0,\"finish_reason\":null}]}";
    assert_eq!(process_chunk(absent), LineOutcome::Fragment("c".to_string()));
    assert_eq!(process_chunk(null), LineOutcome::Fragment("c".to_string()));
}

#[test]
fn finish_reason_wins_over_role_and_content() {
    let line = "data: {\"choices\":[{\"delta\":{\"role\":\"assistant\",\"content\":\"c\"},\"index\":0,\"finish_reason\":\"stop\"}]}";
    assert_eq!(process_chunk(line), LineOutcome::Silent);
}

#[test]
fn role_wins_over_content() {
    let line = "data: {\"choices\":[{\"delta\":{\"role\":\"assistant\",\"content\":\"c\"},\"index\":0}]}";
    assert_eq!(process_chunk(line), LineOutcome::Silent);
}

#[test]
fn only_the_first_choice_is_read() {
    let line = "data: {\"choices\":[{\"delta\":{\"content\":\"first\"},\"index\":0},{\"delta\":{\"content\":\"second\"},\"index\":1}]}";
    assert_eq!(process_chunk(line), LineOutcome::Fragment("first".to_string()));
}

#[test]
fn sentinel_must_match_exactly() {
    assert_eq!(process_chunk("data: [DONE]"), LineOutcome::Done);
    assert_eq!(
        process_chunk("data: [DONE] "),
        LineOutcome::Rejected(ChunkFault::InvalidJson)
    );
    assert_eq!(
        process_chunk("[DONE]"),
        LineOutcome::Rejected(ChunkFault::InvalidJson)
    );
}

#[test]
fn line_without_prefix_is_read_as_it_stands() {
    let line = "{\"choices\":[{\"delta\":{\"content\":\"bare\"},\"index\":0}]}";
    assert_eq!(process_chunk(line), LineOutcome::Fragment("bare".to_string()));
}

#[test]
fn repeated_prefix_is_stripped_whole() {
    let line = "data: data: {\"choices\":[{\"delta\":{\"content\":\"twice\"},\"index\":0}]}";
    assert_eq!(process_chunk(line), LineOutcome::Fragment("twice".to_string()));
}

#[test]
fn content_keeps_escapes_and_other_scripts() {
    let line = "data: {\"choices\":[{\"delta\":{\"content\":\"line\\nbreak \\\"q\\\" \\u3053\\u3093\"},\"index\":0}]}";
    assert_eq!(
        process_chunk(line),
        LineOutcome::Fragment("line\nbreak \"q\" \u{3053}\u{3093}".to_string())
    );
}

#[test]
fn bytes_that_are_not_text_fail_the_call() {
    let reads = vec![
        format!("{}\n", content_line("ok")).into_bytes(),
        vec![0x64, 0x61, 0xff, 0xfe],
        format!("{}\n", content_line("never")).into_bytes(),
    ];
    let report = complete_chat_stream(&streaming_options(), 200, &reads);
    assert_eq!(
        report.items,
        vec![Ok("ok".to_string()), Err(CompletionError::InvalidEncoding)]
    );
    assert_eq!(report.result, Err(CompletionError::InvalidEncoding));
}

#[test]
fn streaming_client_refuses_a_request_without_the_stream_flag() {
    let unset = Options::new("gpt-4".to_string(), Vec::new());
    let mut off = Options::new("gpt-4".to_string(), Vec::new());
    off.stream = Some(false);
    for options in [unset, off] {
        let report = complete_chat_stream(&options, 200, &reads_of(&[content_line("x")]));
        assert_eq!(report.items, vec![Err(CompletionError::ModeViolation)]);
        assert_eq!(report.result, Err(CompletionError::ModeViolation));
    }
}

#[test]
fn status_outside_the_success_range_carries_status_and_body() {
    let reads = vec![b"{\"error\":".to_vec(), b"\"overloaded\"}".to_vec()];
    let report = complete_chat_stream(&streaming_options(), 503, &reads);
    let failure = CompletionError::UpstreamHttp {
        status: 503,
        body: "{\"error\":\"overloaded\"}".to_string(),
    };
    assert_eq!(report.items, vec![Err(failure.clone())]);
    assert_eq!(report.result, Err(failure));
}

#[test]
fn assembler_takes_reads_one_by_one() {
    let mut assembler = ReplyAssembler::new();
    assert!(assembler.is_streaming());
    let first = assembler.feed(format!("{}\n\n", content_line("Hel")).as_bytes());
    assert_eq!(first, vec![Ok("Hel".to_string())]);
    let blank = assembler.feed(b"\n\n");
    assert!(blank.is_empty());
    let second = assembler.feed(format!("{}\n{}\n", content_line("lo"), finish_line()).as_bytes());
    assert_eq!(second, vec![Ok("lo".to_string())]);
    assert!(assembler.is_streaming());
    let last = assembler.feed(b"data: [DONE]\n\n");
    assert!(last.is_empty());
    assert!(!assembler.is_streaming());
    let late = assembler.feed(format!("{}\n", content_line("late")).as_bytes());
    assert!(late.is_empty());
    let end = assembler.finish();
    assert!(end.items.is_empty());
    assert_eq!(end.result, Ok("Hello".to_string()));
}

#[test]
fn assembler_fails_on_a_transport_failure_and_hands_it_on() {
    let mut assembler = ReplyAssembler::new();
    let _ = assembler.feed(format!("{}\n", content_line("some")).as_bytes());
    let failure = CompletionError::Transport("connection reset".to_string());
    let items = assembler.fail(failure.clone());
    assert_eq!(items, vec![Err(failure.clone())]);
    assert!(!assembler.is_streaming());
    let again = assembler.fail(CompletionError::Transport("second".to_string()));
    assert!(again.is_empty());
    let after = assembler.feed(format!("{}\n", content_line("more")).as_bytes());
    assert!(after.is_empty());
    let end = assembler.finish();
    assert!(end.items.is_empty());
    assert_eq!(end.result, Err(failure));
}

#[test]
fn failure_after_the_sentinel_changes_nothing() {
    let mut assembler = ReplyAssembler::new();
    let _ = assembler.feed(format!("{}\ndata: [DONE]\n", content_line("done")).as_bytes());
    let items = assembler.fail(CompletionError::Transport("too late".to_string()));
    assert!(items.is_empty());
    assert_eq!(assembler.finish().result, Ok("done".to_string()));
}

#[test]
fn reply_is_the_fragments_joined_for_a_longer_run() {
    let words = ["The", " quick", " brown", " fox", " jumps", " over", " the", " lazy", " dog"];
    let mut lines: Vec<String> = vec![role_line()];
    for word in words {
        lines.push(content_line(word));
    }
    lines.push(finish_line());
    lines.push("data: [DONE]".to_string());
    let report = run(&lines);
    let mut joined = String::new();
    for item in &report.items {
        match item {
            Ok(fragment) => joined.push_str(fragment),
            Err(error) => panic!("unexpected failure {:?}", error),
        }
    }
    assert_eq!(report.items.len(), words.len());
    assert_eq!(report.result, Ok(joined));
    assert_eq!(
        report.result,
        Ok("The quick brown fox jumps over the lazy dog".to_string())
    );
}

fn whole_body() -> Vec<u8> {
    format!(
        "{}\n\n{}\n\n{}\n\n{}\n\ndata: [DONE]\n\n",
        role_line(),
        content_line("Hé"),
        content_line("llo ✓"),
        finish_line()
    )
    .into_bytes()
}

#[test]
fn line_cut_across_two_reads_is_one_line() {
    let line = format!("{}\n", content_line("whole"));
    let bytes = line.as_bytes();
    let cut = bytes.len() / 2;
    let reads = vec![bytes[..cut].to_vec(), bytes[cut..].to_vec()];
    let report = complete_chat_stream(&streaming_options(), 200, &reads);
    assert_eq!(report.items, vec![Ok("whole".to_string())]);
    assert_eq!(report.result, Ok("whole".to_string()));
}

#[test]
fn character_cut_across_two_reads_is_no_failure() {
    let line = format!("{}\n", content_line("é"));
    let bytes = line.as_bytes();
    let place = bytes.iter().position(|byte| *byte == 0xc3).unwrap();
    let reads = vec![bytes[..place + 1].to_vec(), bytes[place + 1..].to_vec()];
    let report = complete_chat_stream(&streaming_options(), 200, &reads);
    assert_eq!(report.items, vec![Ok("é".to_string())]);
    assert_eq!(report.result, Ok("é".to_string()));
}

#[test]
fn lone_character_cut_in_two_is_the_same_as_whole() {
    let whole = complete_chat_stream(&streaming_options(), 200, &vec![vec![0xc3, 0xa9]]);
    let cut = complete_chat_stream(&streaming_options(), 200, &vec![vec![0xc3], vec![0xa9]]);
    assert_eq!(whole, cut);
    let failure = CompletionError::MalformedChunk(ChunkFault::InvalidJson);
    assert_eq!(whole.items, vec![Err(failure.clone())]);
    assert_eq!(whole.result, Err(failure));
}

#[test]
fn every_cut_of_the_body_gives_the_same_report() {
    let body = whole_body();
    let whole = complete_chat_stream(&streaming_options(), 200, &vec![body.clone()]);
    assert_eq!(
        whole.items,
        vec![Ok("Hé".to_string()), Ok("llo ✓".to_string())]
    );
    assert_eq!(whole.result, Ok("Héllo ✓".to_string()));
    for cut in 0..=body.len() {
        let reads = vec![body[..cut].to_vec(), body[cut..].to_vec()];
        assert_eq!(
            complete_chat_stream(&streaming_options(), 200, &reads),
            whole,
            "cut at {}",
            cut
        );
    }
}

#[test]
fn body_taken_byte_by_byte_gives_the_same_report() {
    let body = whole_body();
    let whole = complete_chat_stream(&streaming_options(), 200, &vec![body.clone()]);
    let reads: Vec<Vec<u8>> = body.iter().map(|byte| vec![*byte]).collect();
    assert_eq!(complete_chat_stream(&streaming_options(), 200, &reads), whole);
    let with_empty_reads = vec![Vec::new(), body.clone(), Vec::new(), Vec::new()];
    assert_eq!(
        complete_chat_stream(&streaming_options(), 200, &with_empty_reads),
        whole
    );
}

#[test]
fn every_cut_of_a_failing_body_gives_the_same_report() {
    let body = format!("{}\ndata: {{broken\n{}\n", content_line("a"), content_line("b")).into_bytes();
    let whole = complete_chat_stream(&streaming_options(), 200, &vec![body.clone()]);
    let failure = CompletionError::MalformedChunk(ChunkFault::InvalidJson);
    assert_eq!(whole.items, vec![Ok("a".to_string()), Err(failure.clone())]);
    assert_eq!(whole.result, Err(failure));
    for cut in 0..=body.len() {
        let reads = vec![body[..cut].to_vec(), body[cut..].to_vec()];
        assert_eq!(
            complete_chat_stream(&streaming_options(), 200, &reads),
            whole,
            "cut at {}",
            cut
        );
    }
}

#[test]
fn unfinished_line_is_kept_until_its_line_feed_arrives() {
    let mut assembler = ReplyAssembler::new();
    let line = content_line("later");
    let (head, tail) = line.split_at(20);
    assert!(assembler.feed(head.as_bytes()).is_empty());
    assert!(assembler.feed(tail.as_bytes()).is_empty());
    assert_eq!(assembler.feed(b"\n"), vec![Ok("later".to_string())]);
    assert_eq!(assembler.finish().result, Ok("later".to_string()));
}

#[test]
fn unfinished_line_at_the_end_of_the_body_is_the_last_line() {
    let mut assembler = ReplyAssembler::new();
    let first = assembler.feed(format!("{}\n{}", content_line("a"), content_line("b")).as_bytes());
    assert_eq!(first, vec![Ok("a".to_string())]);
    let end = assembler.finish();
    assert_eq!(end.items, vec![Ok("b".to_string())]);
    assert_eq!(end.result, Ok("ab".to_string()));
}

#[test]
fn unfinished_line_that_is_rejected_fails_the_call_at_the_end() {
    let mut assembler = ReplyAssembler::new();
    let first = assembler.feed(format!("{}\ndata: {{cut", content_line("a")).as_bytes());
    assert_eq!(first, vec![Ok("a".to_string())]);
    let end = assembler.finish();
    let failure = CompletionError::MalformedChunk(ChunkFault::InvalidJson);
    assert_eq!(end.items, vec![Err(failure.clone())]);
    assert_eq!(end.result, Err(failure));
}

#[test]
fn line_that_is_not_text_fails_the_call_where_it_ends() {
    let mut assembler = ReplyAssembler::new();
    assert!(assembler.feed(&[0xff, 0xfe]).is_empty());
    assert!(assembler.is_streaming());
    assert_eq!(
        assembler.feed(b"\n"),
        vec![Err(CompletionError::InvalidEncoding)]
    );
    assert!(!assembler.is_streaming());
    assert_eq!(assembler.finish().result, Err(CompletionError::InvalidEncoding));
}

#[test]
fn transport_failure_drops_the_unfinished_line() {
    let mut assembler = ReplyAssembler::new();
    assert!(assembler.feed(content_line("never").as_bytes()).is_empty());
    let failure = CompletionError::Transport("reset".to_string());
    assert_eq!(assembler.fail(failure.clone()), vec![Err(failure.clone())]);
    let end = assembler.finish();
    assert!(end.items.is_empty());
    assert_eq!(end.result, Err(failure));
}
