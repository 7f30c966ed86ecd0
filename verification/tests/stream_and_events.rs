use kaishi::event::{reader_step, tick_step, AppEvent, KeyCode, KeyPress, ReaderStep, TerminalInput};
use kaishi::api::resolved_session_id;
use kaishi::stream::{
    chunk_outcome, classify_line, end_of_body_step, stream_step, Delta, SseDecoder, SseLine,
    StreamChoice, StreamChunk, StreamUsage,
};

fn choice(text: Option<&str>, finish: Option<&str>) -> StreamChoice {
    StreamChoice {
        delta: Some(Delta { content: text.map(|t| t.to_string()) }),
        finish_reason: finish.map(|f| f.to_string()),
    }
}

#[test]
fn decoder_splits_lines_across_chunks() {
    let mut d = SseDecoder::new();
    d.push_bytes(b"data: {\"a\"");
    assert_eq!(d.next_line(), None);
    d.push_bytes(b":1}\r\n\r\ndata: [DONE]\n");
    assert_eq!(d.next_line(), Some("data: {\"a\":1}".to_string()));
    assert_eq!(d.next_line(), Some(String::new()));
    assert_eq!(d.next_line(), Some("data: [DONE]".to_string()));
    assert_eq!(d.next_line(), None);
}

#[test]
fn decoder_drops_nul_and_replaces_invalid_utf8() {
    let mut d = SseDecoder::new();
    d.push_bytes(b"a\0b\xffc\n");
    assert_eq!(d.next_line(), Some("ab\u{fffd}c".to_string()));
}

#[test]
fn decoder_trims_all_trailing_carriage_returns() {
    let mut d = SseDecoder::new();
    d.push_text("x\r\r\n");
    assert_eq!(d.next_line(), Some("x".to_string()));
}

#[test]
fn lines_are_classified() {
    assert!(matches!(classify_line("data: [DONE]"), SseLine::Done));
    assert!(matches!(classify_line("data: [DONE] trailing"), SseLine::Done));
    match classify_line("data: {\"x\":1}") {
        SseLine::Data(p) => assert_eq!(p, "{\"x\":1}"),
        _ => panic!("expected data"),
    }
    assert!(matches!(classify_line("data:nospace"), SseLine::Other));
    assert!(matches!(classify_line(": keep-alive"), SseLine::Other));
    assert!(matches!(classify_line(""), SseLine::Other));
}

#[test]
fn chunk_without_choices_gives_nothing() {
    let out = chunk_outcome(&StreamChunk { choices: None, usage: None });
    assert!(out.deltas.is_empty());
    assert!(out.done.is_none());
}

#[test]
fn chunk_deltas_skip_empty_text() {
    let chunk = StreamChunk {
        choices: Some(vec![choice(Some("Hel"), None), choice(Some(""), None), choice(None, None), choice(Some("lo"), None)]),
        usage: None,
    };
    let out = chunk_outcome(&chunk);
    assert_eq!(out.deltas, vec!["Hel".to_string(), "lo".to_string()]);
    assert!(out.done.is_none());
}

#[test]
fn chunk_finish_reports_usage_and_stops() {
    let chunk = StreamChunk {
        choices: Some(vec![choice(Some("a"), Some("stop")), choice(Some("b"), None)]),
        usage: Some(StreamUsage { prompt_tokens: Some(12), completion_tokens: None }),
    };
    let out = chunk_outcome(&chunk);
    assert_eq!(out.deltas, vec!["a".to_string()]);
    let usage = out.done.expect("finished").expect("usage");
    assert_eq!(usage.input_tokens, 12);
    assert_eq!(usage.output_tokens, 0);

    let bare = StreamChunk { choices: Some(vec![StreamChoice { delta: None, finish_reason: Some("stop".into()) }]), usage: None };
    let out = chunk_outcome(&bare);
    assert!(out.deltas.is_empty());
    assert!(matches!(out.done, Some(None)));
}

#[test]
fn reader_forwards_keys_and_wheel() {
    let k = KeyPress { modifiers: 0, code: KeyCode::Char('x') };
    assert!(matches!(reader_step(TerminalInput::Key(k)), ReaderStep::Send(AppEvent::Key(p)) if p == k));
    assert!(matches!(reader_step(TerminalInput::ScrollUp), ReaderStep::Send(AppEvent::MouseScroll(3))));
    assert!(matches!(reader_step(TerminalInput::ScrollDown), ReaderStep::Send(AppEvent::MouseScroll(-3))));
    assert!(matches!(reader_step(TerminalInput::Resize(80, 24)), ReaderStep::SendIgnoringFailure(AppEvent::Resize(80, 24))));
    assert!(matches!(reader_step(TerminalInput::OtherMouse), ReaderStep::Skip));
    assert!(matches!(reader_step(TerminalInput::Other), ReaderStep::Skip));
    assert!(matches!(reader_step(TerminalInput::Failed), ReaderStep::Stop));
    assert!(matches!(reader_step(TerminalInput::Ended), ReaderStep::Stop));
    assert!(matches!(tick_step(), ReaderStep::Send(AppEvent::Tick)));
}

#[test]
fn stream_steps() {
    let done = stream_step(&SseLine::Done, None);
    assert!(done.deltas.is_empty());
    assert!(matches!(done.done, Some(None)));
    let chunk = StreamChunk { choices: Some(vec![choice(Some("x"), None)]), usage: None };
    let data = stream_step(&SseLine::Data("{}".into()), Some(chunk));
    assert_eq!(data.deltas, vec!["x".to_string()]);
    assert!(data.done.is_none());
    let bad = stream_step(&SseLine::Data("not json".into()), None);
    assert!(bad.deltas.is_empty() && bad.done.is_none());
    let other = stream_step(&SseLine::Other, None);
    assert!(other.deltas.is_empty() && other.done.is_none());
    let end = end_of_body_step();
    assert!(end.deltas.is_empty());
    assert!(matches!(end.done, Some(None)));
}

#[test]
fn resolved_id_prefers_the_server() {
    assert_eq!(resolved_session_id(Some("full-id"), "full"), "full-id");
    assert_eq!(resolved_session_id(None, "abc"), "abc");
}
