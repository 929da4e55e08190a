use pantry::connectors::llmrs::{finish_on_end_of_text, report_token, token_halts_inference};
use pantry::connectors::LLMEventInternal;
use pantry::llm::LLMHistoryItem;
use pantry::string_map::StrMap;
use tokio_util::sync::CancellationToken;

fn item() -> LLMHistoryItem {
    LLMHistoryItem::pending(1, 2, 10, StrMap::new(), "User: hi".to_string())
}

#[test]
fn token_is_appended_and_reported() {
    let tok = CancellationToken::new();
    let mut buf = String::new();
    let stop = Some("User:".to_string());
    let r = report_token(item(), &stop, &mut buf, "Hello", &tok, 11);
    assert!(!r.halt);
    assert_eq!(r.item.output, "Hello");
    assert!(!r.item.complete);
    assert_eq!(r.item.updated_timestamp, 11);
    match &r.progress {
        LLMEventInternal::PromptProgress { previous, next } => {
            assert_eq!(previous, "");
            assert_eq!(next, "Hello");
        }
        _ => panic!("expected progress"),
    }
    assert!(r.completion.is_none());
    let r2 = report_token(r.item, &stop, &mut buf, " there", &tok, 12);
    assert_eq!(r2.item.output, "Hello there");
}

#[test]
fn stop_sequence_halts_and_completes() {
    let tok = CancellationToken::new();
    let mut buf = String::new();
    let stop = Some("User:".to_string());
    let r = report_token(item(), &stop, &mut buf, "User: next", &tok, 11);
    assert!(r.halt);
    assert!(r.item.complete);
    match &r.completion {
        Some(LLMEventInternal::PromptCompletion { previous }) => assert_eq!(previous, "User: next"),
        _ => panic!("expected completion"),
    }
}

#[test]
fn cancellation_halts() {
    let tok = CancellationToken::new();
    tok.cancel();
    let mut buf = String::new();
    let r = report_token(item(), &None, &mut buf, "x", &tok, 11);
    assert!(r.halt);
    assert!(r.item.complete);
    let mut b = String::new();
    assert!(token_halts_inference(&None, &mut b, "y", &tok));
    let fresh = CancellationToken::new();
    assert!(!token_halts_inference(&None, &mut b, "y", &fresh));
}

#[test]
fn end_of_text_completes() {
    let i = item().with_token("abc", false, 11);
    let done = finish_on_end_of_text(i, 12);
    assert_eq!(done.output, "abc");
    assert!(done.complete);
    assert_eq!(done.updated_timestamp, 12);
}
