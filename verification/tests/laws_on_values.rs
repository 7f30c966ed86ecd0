use kaishi::api::HermesClient;
use kaishi::app::{App, ChatMessage, Effect, Role};
use kaishi::event::{KeyCode, KeyPress, CONTROL};
use kaishi::stream::SseDecoder;
use kaishi::text::decimal_string;

fn app_with(input: &str) -> App {
    let mut a = App::new(HermesClient::new("http://h", "", "m"));
    for c in input.chars() {
        a.handle_key(KeyPress { modifiers: 0, code: KeyCode::Char(c) });
    }
    a
}

fn press(a: &mut App, code: KeyCode) -> Effect {
    a.handle_key(KeyPress { modifiers: 0, code })
}

#[test]
fn cursor_stays_on_character_boundaries() {
    let mut a = app_with("ü€😀 x");
    let codes = [KeyCode::Left, KeyCode::Left, KeyCode::Backspace, KeyCode::Right, KeyCode::Delete, KeyCode::Home, KeyCode::Right, KeyCode::End];
    for code in codes {
        press(&mut a, code);
        assert!(a.cursor <= a.input.len());
        assert!(a.input.is_char_boundary(a.cursor));
    }
}

#[test]
fn type_then_backspace_restores() {
    let mut a = app_with("héllo");
    press(&mut a, KeyCode::Left);
    press(&mut a, KeyCode::Left);
    let (input, cursor) = (a.input.clone(), a.cursor);
    press(&mut a, KeyCode::Char('€'));
    press(&mut a, KeyCode::Backspace);
    assert_eq!((a.input.clone(), a.cursor), (input, cursor));
}

#[test]
fn left_then_right_and_right_then_left() {
    let mut a = app_with("a€b");
    press(&mut a, KeyCode::Left);
    let c = a.cursor;
    press(&mut a, KeyCode::Left);
    press(&mut a, KeyCode::Right);
    assert_eq!(a.cursor, c);
    press(&mut a, KeyCode::Right);
    press(&mut a, KeyCode::Left);
    assert_eq!(a.cursor, c);
}

#[test]
fn home_and_end_reach_the_ends() {
    let mut a = app_with("añb");
    press(&mut a, KeyCode::Home);
    assert_eq!(a.cursor, 0);
    press(&mut a, KeyCode::End);
    assert_eq!(a.cursor, "añb".len());
    assert_eq!(a.input, "añb");
}

#[test]
fn page_up_then_down_returns() {
    let mut a = app_with("");
    a.scroll_offset = 33;
    press(&mut a, KeyCode::PageUp);
    press(&mut a, KeyCode::PageDown);
    assert_eq!(a.scroll_offset, 33);
}

#[test]
fn scroll_up_then_down_returns() {
    for (start, d) in [(5u16, 3i16), (0, 1), (100, 32767), (u16::MAX - 7, 7)] {
        let mut a = app_with("");
        a.scroll_offset = start;
        a.handle_scroll(d);
        a.handle_scroll(-d);
        assert_eq!(a.scroll_offset, start);
        assert_eq!(a.mouse_events, 2);
    }
}

#[test]
fn pieces_become_one_message() {
    let mut a = app_with("");
    let n = a.messages.len();
    for piece in ["a", "", "bc", "d"] {
        a.handle_stream_delta(piece);
    }
    a.handle_stream_done(None);
    assert_eq!(a.messages.len(), n + 1);
    assert_eq!(a.messages.last().unwrap().content, "abcd");
    let mut b = app_with("");
    for piece in ["", ""] {
        b.handle_stream_delta(piece);
    }
    b.handle_stream_done(None);
    assert_eq!(b.messages.len(), n);
}

#[test]
fn ctrl_c_never_quits_and_ctrl_d_does() {
    let mut a = app_with("x");
    a.handle_key(KeyPress { modifiers: CONTROL, code: KeyCode::Char('c') });
    assert!(!a.should_quit());
    a.handle_key(KeyPress { modifiers: CONTROL, code: KeyCode::Char('d') });
    assert!(a.should_quit());
}

#[test]
fn streamed_reply_becomes_one_message() {
    let mut a = app_with("");
    a.pending_response = "Hi ".into();
    a.handle_stream_delta("there");
    a.handle_stream_done(None);
    let m = a.messages.last().unwrap();
    assert_eq!((m.role, m.content.as_str()), (Role::Assistant, "Hi there"));
}

#[test]
fn request_has_only_user_and_assistant_messages() {
    let mut a = app_with("");
    a.messages.push(ChatMessage { role: Role::User, content: "q".into(), tokens: None });
    a.messages.push(ChatMessage { role: Role::System, content: "note".into(), tokens: None });
    a.messages.push(ChatMessage { role: Role::Assistant, content: "r".into(), tokens: None });
    let req = a.build_api_messages();
    let roles: Vec<&str> = req.iter().map(|m| m.role.as_str()).collect();
    assert_eq!(roles, vec!["user", "assistant"]);
    for c in "next".chars() {
        press(&mut a, KeyCode::Char(c));
    }
    match press(&mut a, KeyCode::Enter) {
        Effect::Stream { messages, .. } => {
            let last = messages.last().unwrap();
            assert_eq!((last.role.as_str(), last.content.as_str()), ("user", "next"));
            assert_eq!(messages.len(), 3);
        }
        other => panic!("unexpected {:?}", other),
    }
}

#[test]
fn base_url_loses_only_trailing_slashes() {
    assert_eq!(HermesClient::new("http://h/a//", "", "m").base_url(), "http://h/a");
    assert_eq!(HermesClient::new("///", "", "m").base_url(), "");
}

#[test]
fn decimal_reads_back() {
    for n in [0u64, 9, 10, 4021, 18446744073709551615] {
        let s = decimal_string(n);
        assert_eq!(s.parse::<u64>().unwrap(), n);
        assert!(n == 0 || !s.starts_with('0'));
    }
}

#[test]
fn ctrl_w_removes_one_word_and_following_spaces() {
    let mut a = app_with("say hello  world  ");
    a.handle_key(KeyPress { modifiers: CONTROL, code: KeyCode::Char('w') });
    assert_eq!(a.input, "say hello  ");
    assert_eq!(a.cursor, "say hello  ".len());
}

#[test]
fn ctrl_k_keeps_text_before_cursor() {
    let mut a = app_with("abcdef");
    press(&mut a, KeyCode::Left);
    press(&mut a, KeyCode::Left);
    a.handle_key(KeyPress { modifiers: CONTROL, code: KeyCode::Char('k') });
    assert_eq!(a.input, "abcd");
    assert_eq!(a.cursor, 4);
}

#[test]
fn next_line_loses_nothing_but_line_endings() {
    let mut d = SseDecoder::new();
    d.push_text("one\r\r\ntwo\nrest");
    assert_eq!(d.next_line().as_deref(), Some("one"));
    assert_eq!(d.next_line().as_deref(), Some("two"));
    assert_eq!(d.next_line(), None);
    d.push_text("\n");
    assert_eq!(d.next_line().as_deref(), Some("rest"));
}

#[test]
fn only_keys_edit_the_input() {
    let mut a = app_with("draft");
    press(&mut a, KeyCode::Left);
    let (input, cursor) = (a.input.clone(), a.cursor);
    for ev in [
        kaishi::event::AppEvent::Tick,
        kaishi::event::AppEvent::MouseScroll(3),
        kaishi::event::AppEvent::StreamDelta("x".into()),
        kaishi::event::AppEvent::StreamDone(None),
        kaishi::event::AppEvent::StreamError("e".into()),
        kaishi::event::AppEvent::Resize(1, 1),
    ] {
        assert!(matches!(a.handle_event(ev), Effect::Nothing));
        assert_eq!((a.input.as_str(), a.cursor), (input.as_str(), cursor));
    }
}

#[test]
fn second_end_adds_nothing() {
    let mut a = app_with("");
    a.handle_stream_delta("reply");
    a.handle_stream_done(None);
    let n = a.messages.len();
    a.handle_stream_done(None);
    assert_eq!(a.messages.len(), n);
}

fn lines_of_chunks(chunks: &[&[u8]]) -> (Vec<String>, Option<String>) {
    let mut d = SseDecoder::new();
    let mut lines = Vec::new();
    for c in chunks {
        d.push_bytes(c);
        while let Some(l) = d.next_line() {
            lines.push(l);
        }
    }
    d.push_text("\n");
    let rest = d.next_line();
    (lines, rest)
}

#[test]
fn lines_ignore_chunking() {
    let body = "data: {\"a\":\"é\"}\r\n\0\ndata: [DONE]\r\r\ntail€".as_bytes();
    let whole = lines_of_chunks(&[body]);
    for cut in 0..=body.len() {
        if std::str::from_utf8(&body[..cut]).is_ok() {
            assert_eq!(lines_of_chunks(&[&body[..cut], &body[cut..]]), whole, "cut at {cut}");
        }
    }
    let bytes: Vec<&[u8]> = "ab\ncd\r\ne".as_bytes().chunks(1).collect();
    assert_eq!(
        lines_of_chunks(&bytes),
        (vec!["ab".to_string(), "cd".to_string()], Some("e".to_string()))
    );
}
