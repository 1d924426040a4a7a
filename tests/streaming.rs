use lm_runner::error::RunnerError;
use lm_runner::stream::{relay, ChatCompletion, RelayAction, StreamChunk, StreamEvent, StreamRelay};

fn chunk(s: &str) -> StreamChunk {
    StreamChunk { content: s.to_string() }
}

fn summary() -> ChatCompletion {
    ChatCompletion { text: "abc".to_string(), input_tokens: 5, output_tokens: 3, finish_reason: Some("stop".to_string()) }
}

#[test]
fn three_chunks_then_summary() {
    let out = relay(vec![
        StreamEvent::Chunk(chunk("a")),
        StreamEvent::Chunk(chunk("b")),
        StreamEvent::Chunk(chunk("c")),
        StreamEvent::Completed(summary()),
    ]);
    assert_eq!(out.delivered, vec![chunk("a"), chunk("b"), chunk("c")]);
    assert_eq!(out.result, Some(Ok(summary())));
}

#[test]
fn error_after_two_chunks() {
    let out = relay(vec![
        StreamEvent::Chunk(chunk("a")),
        StreamEvent::Chunk(chunk("b")),
        StreamEvent::Failed(RunnerError::BackendRejected("rate limit".to_string())),
        StreamEvent::Chunk(chunk("c")),
    ]);
    assert_eq!(out.delivered, vec![chunk("a"), chunk("b")]);
    assert_eq!(out.result, Some(Err(RunnerError::BackendRejected("rate limit".to_string()))));
}

#[test]
fn sink_closed_mid_stream() {
    let out = relay(vec![
        StreamEvent::Chunk(chunk("a")),
        StreamEvent::SinkClosed,
        StreamEvent::Chunk(chunk("b")),
        StreamEvent::Completed(summary()),
    ]);
    assert_eq!(out.delivered, vec![chunk("a")]);
    assert_eq!(out.result, Some(Err(RunnerError::SinkClosed)));
}

#[test]
fn events_run_out_without_summary() {
    let out = relay(vec![StreamEvent::Chunk(chunk("a"))]);
    assert_eq!(out.delivered, vec![chunk("a")]);
    assert_eq!(out.result, None);
    let out = relay(Vec::new());
    assert!(out.delivered.is_empty());
    assert_eq!(out.result, None);
}

#[test]
fn relay_ignores_events_after_closure() {
    let mut r = StreamRelay::new();
    assert!(!r.is_finished());
    assert_eq!(r.step(StreamEvent::Chunk(chunk("a"))), RelayAction::Deliver(chunk("a")));
    assert_eq!(r.step(StreamEvent::SinkClosed), RelayAction::Finish(Err(RunnerError::SinkClosed)));
    assert!(r.is_finished());
    assert_eq!(r.step(StreamEvent::Chunk(chunk("b"))), RelayAction::Ignore);
    assert_eq!(r.step(StreamEvent::Completed(summary())), RelayAction::Ignore);
}
