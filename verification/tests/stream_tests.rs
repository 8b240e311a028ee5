use async_openai::error::OpenAIError;
use async_openai::types::chat::Choice;
use async_openai::types::completions::CreateCompletionResponse;
use llm_chat::errors::ChatError;
use llm_chat::policy::DumpPolicy;
use llm_chat::policy::TriggerKind;
use llm_chat::session::Completion;
use llm_chat::stream::StreamEvent;
use llm_chat::stream::collect_output;
use llm_chat::stream::finish_stream;
use llm_chat::stream::process_stream_item;

fn chunk(texts: &[&str]) -> StreamEvent {
    StreamEvent::Fragments(texts.iter().map(|t| t.to_string()).collect())
}

#[test]
fn transport_fault_does_not_stop_fragments() {
    let events = vec![
        chunk(&["a"]),
        StreamEvent::TransportFault("boom".to_string()),
        chunk(&["b", "c"]),
    ];
    let out = collect_output(&events);
    assert_eq!(out.fragments, ["a", "b", "c"]);
    assert_eq!(out.faults, ["boom"]);
}

#[test]
fn transport_fault_does_not_mutate_context() {
    let mut s = Completion::new("k", "http://localhost", "ctx.txt", DumpPolicy::AutoDump);
    s.append_context("kept".to_string());
    let events = vec![StreamEvent::TransportFault("boom".to_string()), chunk(&["x"])];
    let out = collect_output(&events);
    assert_eq!(out.fragments, ["x"]);
    assert_eq!(s.context, ["kept"]);
}

#[test]
fn cancellation_delivers_prefix_and_triggers_no_dump() {
    let events = vec![chunk(&["He"]), chunk(&["llo"]), chunk(&["!"])];
    // An interrupt after the first chunk abandons the rest of the stream:
    // only the already-arrived events are folded.
    let consumed: Vec<StreamEvent> = events.into_iter().take(1).collect();
    let out = collect_output(&consumed);
    assert_eq!(out.fragments, ["He"]);
    // A cancelled exchange is no triggering event; under a policy without
    // automatic dumps nothing is written either way.
    let s = Completion::new("k", "http://localhost", "ctx.txt", DumpPolicy::DumpRelyRequest);
    assert!(s.on_trigger(TriggerKind::CompletionExchange, 1).is_none());
}

#[test]
fn auto_dump_end_to_end() {
    let mut s = Completion::new(
        "sk-xx",
        "https://api.deepseek.com/beta",
        "ctx.txt",
        DumpPolicy::AutoDump,
    );
    let request = s.completion_request("model-x", "hello", None);
    assert!(request.is_ok());

    // A stub transport yields the fragments across three chunks.
    let events = vec![chunk(&["He"]), chunk(&["llo"]), chunk(&["!"])];
    let out = collect_output(&events);
    assert_eq!(out.fragments, ["He", "llo", "!"]);
    assert!(out.faults.is_empty());

    // The caller opts in to logging the exchange, then signals the
    // triggering event; the file is overwritten, not appended to.
    let mut file: Option<String> = Some("stale contents\n".to_string());
    s.append_context("hello".to_string());
    s.append_context("Hello!".to_string());
    if let Some(text) = s.on_trigger(TriggerKind::CompletionExchange, 7) {
        file = Some(text);
        s.record_dump(7);
    }
    assert_eq!(file.as_deref(), Some("hello\nHello!\n"));
    assert_eq!(s.last_dump, 7);
}

#[test]
fn process_stream_item_extracts_choice_texts() {
    let response = CreateCompletionResponse {
        id: "cmpl-1".to_string(),
        choices: vec![
            Choice { text: "x".to_string(), index: 0, logprobs: None, finish_reason: None },
            Choice { text: "y".to_string(), index: 1, logprobs: None, finish_reason: None },
        ],
        created: 0,
        model: "model-x".to_string(),
        system_fingerprint: None,
        object: "text_completion".to_string(),
        usage: None,
    };
    match process_stream_item(Ok(response)) {
        StreamEvent::Fragments(texts) => assert_eq!(texts, ["x", "y"]),
        StreamEvent::TransportFault(_) => panic!("a successful chunk became a fault"),
    }
}

#[test]
fn process_stream_item_surfaces_errors() {
    let item = Err(OpenAIError::InvalidArgument("bad chunk".to_string()));
    match process_stream_item(item) {
        StreamEvent::Fragments(_) => panic!("an erroneous chunk became fragments"),
        StreamEvent::TransportFault(message) => assert!(message.contains("bad chunk")),
    }
}

#[test]
fn finish_stream_reports_abnormal_termination() {
    assert!(finish_stream(None).is_ok());
    let r = finish_stream(Some("connection dropped".to_string()));
    match r {
        Err(ChatError::StreamTerminationError(m)) => assert_eq!(m, "connection dropped"),
        _ => panic!("abnormal termination was not reported"),
    }
}

#[test]
fn error_descriptions_name_the_kind() {
    assert_eq!(
        ChatError::TransportError("boom".to_string()).describe(),
        "transport error: boom"
    );
    assert_eq!(
        ChatError::RequestBuildError("no model".to_string()).describe(),
        "request build error: no model"
    );
    assert_eq!(
        ChatError::PersistenceError("disk full".to_string()).describe(),
        "persistence error: disk full"
    );
    assert_eq!(
        ChatError::StreamTerminationError("eof".to_string()).describe(),
        "stream termination error: eof"
    );
}
