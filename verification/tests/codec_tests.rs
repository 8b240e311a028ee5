use llm_chat::args::Args;
use llm_chat::codec::parse_context;
use llm_chat::codec::serialize_context;
use llm_chat::repl::InputAction;
use llm_chat::repl::classify_input;

#[test]
fn serialize_writes_one_entry_per_line() {
    let context = vec!["a".to_string(), "b".to_string(), "c".to_string()];
    assert_eq!(serialize_context(&context), "a\nb\nc\n");
}

#[test]
fn round_trip_three_entries() {
    let context = vec!["a".to_string(), "b".to_string(), "c".to_string()];
    let text = serialize_context(&context);
    assert_eq!(parse_context(&text), context);
}

#[test]
fn serialize_empty_context_is_empty_text() {
    let context: Vec<String> = Vec::new();
    assert_eq!(serialize_context(&context), "");
    assert!(parse_context("").is_empty());
}

#[test]
fn parse_edge_cases() {
    assert_eq!(parse_context("\n"), [""]);
    assert_eq!(parse_context("a"), ["a"]);
    assert_eq!(parse_context("a\n\nb"), ["a", "", "b"]);
    assert_eq!(parse_context("a\nb\nc\n"), ["a", "b", "c"]);
}

#[test]
fn round_trip_empty_entries() {
    let context = vec!["".to_string(), "middle".to_string(), "".to_string()];
    let text = serialize_context(&context);
    assert_eq!(text, "\nmiddle\n\n");
    assert_eq!(parse_context(&text), context);
}

#[test]
fn quit_commands_any_case() {
    for quit in ["quit", "QUIT", "qUiT", "q", "Q"] {
        assert_eq!(classify_input(quit), InputAction::Quit);
    }
    assert_eq!(classify_input(""), InputAction::Empty);
    for prompt in ["hello", "quit now", "qq", "quitt", "exit"] {
        assert_eq!(classify_input(prompt), InputAction::Prompt);
    }
}

#[test]
fn args_defaults() {
    let args = Args::default();
    assert_eq!(args.key, "sk-xx");
    assert_eq!(args.url, "https://api.deepseek.com/beta");
}
