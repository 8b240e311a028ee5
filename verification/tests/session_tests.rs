use async_openai::types::chat::Prompt;
use llm_chat::policy::DumpPolicy;
use llm_chat::policy::TriggerKind;
use llm_chat::session::Completion;
use llm_chat::session::DEFAULT_MAX_TOKENS;

#[test]
fn new_session_starts_empty() {
    let s = Completion::new("sk-xx", "https://api.deepseek.com/beta", "ctx.txt", DumpPolicy::NeverDump);
    assert!(s.context.is_empty());
    assert_eq!(s.file, "ctx.txt");
    assert_eq!(s.last_dump, 0);
}

#[test]
fn default_token_cap_is_4096() {
    assert_eq!(DEFAULT_MAX_TOKENS, 4096);
}

#[test]
fn never_dump_never_writes() {
    let mut s = Completion::new("k", "http://localhost", "ctx.txt", DumpPolicy::NeverDump);
    let file: Option<String> = Some("prior contents\n".to_string());
    s.append_context("one".to_string());
    for now in [0u64, 5, 1000, 100000] {
        assert!(s.on_trigger(TriggerKind::CompletionExchange, now).is_none());
        assert!(s.on_trigger(TriggerKind::ExplicitFlush, now).is_none());
    }
    assert_eq!(file.as_deref(), Some("prior contents\n"));
    assert_eq!(s.last_dump, 0);
}

#[test]
fn auto_dump_writes_exactly_once_per_event() {
    let mut s = Completion::new("k", "http://localhost", "ctx.txt", DumpPolicy::AutoDump);
    let mut file: Option<String> = None;
    let mut writes: usize = 0;

    s.append_context("one".to_string());
    if let Some(text) = s.on_trigger(TriggerKind::CompletionExchange, 10) {
        file = Some(text);
        writes += 1;
        s.record_dump(10);
    }
    assert_eq!(writes, 1);
    assert_eq!(file.as_deref(), Some("one\n"));
    assert_eq!(s.last_dump, 10);

    s.append_context("two".to_string());
    if let Some(text) = s.on_trigger(TriggerKind::ExplicitFlush, 20) {
        file = Some(text);
        writes += 1;
        s.record_dump(20);
    }
    assert_eq!(writes, 2);
    assert_eq!(file.as_deref(), Some("one\ntwo\n"));
    assert_eq!(s.last_dump, 20);
}

#[test]
fn periodic_dump_honors_elapsed_interval() {
    let mut s = Completion::new("k", "http://localhost", "ctx.txt", DumpPolicy::PeriodicDump(100));
    s.append_context("entry".to_string());

    // 50 ms since session start: not yet due.
    assert!(s.on_trigger(TriggerKind::CompletionExchange, 50).is_none());
    // 100 ms since session start: due.
    let text = s.on_trigger(TriggerKind::CompletionExchange, 100);
    assert_eq!(text.as_deref(), Some("entry\n"));
    s.record_dump(100);
    assert_eq!(s.last_dump, 100);
    // 50 ms after the last dump: not due.
    assert!(s.on_trigger(TriggerKind::CompletionExchange, 150).is_none());
    assert_eq!(s.last_dump, 100);
    // 150 ms after the last dump: due again.
    assert!(s.on_trigger(TriggerKind::CompletionExchange, 250).is_some());
}

#[test]
fn periodic_failed_write_keeps_last_dump() {
    let mut s = Completion::new("k", "http://localhost", "ctx.txt", DumpPolicy::PeriodicDump(100));
    s.append_context("entry".to_string());

    // Due at 120, but the write fails: record_dump is not called, so the
    // last-dump time stays put and the next event is due again.
    assert!(s.on_trigger(TriggerKind::CompletionExchange, 120).is_some());
    assert_eq!(s.last_dump, 0);
    assert!(s.on_trigger(TriggerKind::CompletionExchange, 130).is_some());

    // This time the write succeeds.
    s.record_dump(130);
    assert_eq!(s.last_dump, 130);
    assert!(s.on_trigger(TriggerKind::CompletionExchange, 180).is_none());
}

#[test]
fn dump_rely_request_writes_only_on_explicit_flush() {
    let mut s = Completion::new("k", "http://localhost", "ctx.txt", DumpPolicy::DumpRelyRequest);
    s.append_context("line".to_string());
    assert!(s.on_trigger(TriggerKind::CompletionExchange, 10).is_none());
    assert!(s.on_trigger(TriggerKind::CompletionExchange, 10000).is_none());
    let text = s.on_trigger(TriggerKind::ExplicitFlush, 10000);
    assert_eq!(text.as_deref(), Some("line\n"));
}

#[test]
fn completion_request_accepts_valid_parameters() {
    let s = Completion::new("k", "http://localhost", "ctx.txt", DumpPolicy::NeverDump);
    assert!(s.completion_request("model-x", "hello", None).is_ok());
    assert!(s.completion_request("model-x", "", Some(5)).is_ok());
}

#[test]
fn completion_request_assembles_given_parameters() {
    let s = Completion::new("k", "http://localhost", "ctx.txt", DumpPolicy::NeverDump);

    let req = s.completion_request("model-x", "hello", None).unwrap();
    assert_eq!(req.model, "model-x");
    assert_eq!(req.prompt, Prompt::String("hello".to_string()));
    assert_eq!(req.stream, Some(true));
    assert_eq!(req.max_tokens, Some(4096));

    let req2 = s.completion_request("model-y", "", Some(7)).unwrap();
    assert_eq!(req2.model, "model-y");
    assert_eq!(req2.prompt, Prompt::String(String::new()));
    assert_eq!(req2.max_tokens, Some(7));
}

#[test]
fn completion_request_rejects_empty_model() {
    let s = Completion::new("k", "http://localhost", "ctx.txt", DumpPolicy::NeverDump);
    let r = s.completion_request("", "hello", None);
    assert!(matches!(r, Err(llm_chat::errors::ChatError::RequestBuildError(_))));
}

#[test]
fn completion_request_rejects_zero_token_cap() {
    let s = Completion::new("k", "http://localhost", "ctx.txt", DumpPolicy::NeverDump);
    let r = s.completion_request("model-x", "hello", Some(0));
    assert!(matches!(r, Err(llm_chat::errors::ChatError::RequestBuildError(_))));
}

#[test]
fn append_context_keeps_order() {
    let mut s = Completion::new("k", "http://localhost", "ctx.txt", DumpPolicy::NeverDump);
    s.append_context("first".to_string());
    s.append_context("second".to_string());
    assert_eq!(s.context, ["first", "second"]);
}
