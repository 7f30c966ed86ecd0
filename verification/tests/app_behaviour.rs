use kaishi::api::{HermesClient, ServerStatus, SessionInfo, SessionMessage};
use kaishi::app::{AgentStatus, App, Effect, Role};
use kaishi::event::{AppEvent, KeyCode, KeyPress, Usage, CONTROL, SHIFT};

fn app() -> App {
    App::new(HermesClient::new("http://127.0.0.1:8642", "", "hermes-agent"))
}

fn key(code: KeyCode) -> KeyPress {
    KeyPress { modifiers: 0, code }
}

fn ctrl(c: char) -> KeyPress {
    KeyPress { modifiers: CONTROL, code: KeyCode::Char(c) }
}

fn type_text(a: &mut App, s: &str) {
    for c in s.chars() {
        a.handle_key(key(KeyCode::Char(c)));
    }
}

fn contents(a: &App) -> Vec<String> {
    a.messages.iter().map(|m| m.content.clone()).collect()
}

fn last(a: &App) -> &str {
    a.messages.last().map(|m| m.content.as_str()).unwrap_or("")
}

#[test]
fn new_app_starts_with_welcome() {
    let a = app();
    assert_eq!(contents(&a), vec!["Welcome to Hermes TUI. Type a message or /help for commands.".to_string()]);
    assert_eq!(a.messages[0].role, Role::System);
    assert_eq!(a.model_display, "hermes-agent");
    assert!(a.model_name.is_empty());
    assert_eq!(a.session_id.len(), 36);
    assert_eq!(a.session_id.chars().nth(14), Some('4'));
    assert!(a.session_id.chars().all(|c| c == '-' || c.is_ascii_hexdigit() && !c.is_ascii_uppercase()));
    assert!(matches!(a.status, AgentStatus::Idle));
    assert!(!a.should_quit());
}

#[test]
fn fresh_session_ids_differ() {
    assert_ne!(app().session_id, app().session_id);
}

#[test]
fn status_sets_model_names() {
    let mut a = app();
    a.apply_status(Some(ServerStatus { model: "m-1".into(), model_display: "M One".into() }));
    assert_eq!(a.model_name, "m-1");
    assert_eq!(a.model_display, "M One");
    let mut b = app();
    b.apply_status(None);
    assert_eq!(b.model_name, "hermes-agent");
    assert_eq!(b.model_display, "hermes-agent");
}

#[test]
fn typing_moves_cursor_by_bytes() {
    let mut a = app();
    type_text(&mut a, "aé€😀");
    assert_eq!(a.input, "aé€😀");
    assert_eq!(a.cursor, a.input.len());
    a.handle_key(key(KeyCode::Left));
    assert_eq!(a.cursor, 6);
    a.handle_key(key(KeyCode::Left));
    assert_eq!(a.cursor, 3);
    type_text(&mut a, "x");
    assert_eq!(a.input, "aéx€😀");
    assert_eq!(a.cursor, 4);
    a.handle_key(key(KeyCode::Backspace));
    assert_eq!(a.input, "aé€😀");
    assert_eq!(a.cursor, 3);
    a.handle_key(key(KeyCode::Delete));
    assert_eq!(a.input, "aé😀");
    assert_eq!(a.cursor, 3);
    a.handle_key(key(KeyCode::Right));
    assert_eq!(a.cursor, 7);
    a.handle_key(key(KeyCode::Right));
    assert_eq!(a.cursor, 7);
    a.handle_key(key(KeyCode::Delete));
    assert_eq!(a.input, "aé😀");
}

#[test]
fn home_end_and_kill() {
    let mut a = app();
    type_text(&mut a, "hello world");
    a.handle_key(ctrl('a'));
    assert_eq!(a.cursor, 0);
    a.handle_key(key(KeyCode::Backspace));
    assert_eq!(a.input, "hello world");
    a.handle_key(key(KeyCode::Right));
    a.handle_key(key(KeyCode::Right));
    a.handle_key(ctrl('k'));
    assert_eq!(a.input, "he");
    assert_eq!(a.cursor, 2);
    a.scroll_offset = 25;
    a.handle_key(key(KeyCode::Home));
    assert_eq!(a.cursor, 0);
    a.handle_key(ctrl('e'));
    assert_eq!(a.cursor, 2);
    assert_eq!(a.scroll_offset, 15);
    a.handle_key(key(KeyCode::End));
    assert_eq!(a.scroll_offset, 5);
}

#[test]
fn ctrl_w_deletes_previous_word() {
    let mut a = app();
    type_text(&mut a, "foo bar  ");
    a.handle_key(ctrl('w'));
    assert_eq!(a.input, "foo ");
    assert_eq!(a.cursor, 4);
    a.handle_key(ctrl('w'));
    assert_eq!(a.input, "");
    assert_eq!(a.cursor, 0);
    type_text(&mut a, "one two");
    a.handle_key(key(KeyCode::Left));
    a.handle_key(ctrl('w'));
    assert_eq!(a.input, "one o");
    assert_eq!(a.cursor, 4);
}

#[test]
fn ctrl_with_other_letters_inserts_them() {
    let mut a = app();
    a.handle_key(ctrl('x'));
    assert_eq!(a.input, "x");
    a.handle_key(KeyPress { modifiers: CONTROL | SHIFT, code: KeyCode::Char('c') });
    assert_eq!(a.input, "xc");
    assert!(!a.should_quit());
    a.handle_key(key(KeyCode::Other));
    assert_eq!(a.input, "xc");
}

#[test]
fn ctrl_d_quits() {
    let mut b = app();
    b.handle_key(ctrl('d'));
    assert!(b.should_quit());
}

#[test]
fn ctrl_c_cancels_the_turn_in_progress() {
    let mut a = app();
    type_text(&mut a, "hi");
    a.handle_key(key(KeyCode::Enter));
    assert!(matches!(a.status, AgentStatus::Streaming));
    a.handle_stream_delta("partial");
    let eff = a.handle_key(ctrl('c'));
    assert!(matches!(eff, Effect::CancelStream));
    assert!(!a.should_quit());
    assert!(matches!(a.status, AgentStatus::Idle));
    assert_eq!(last(&a), "partial");
    assert_eq!(a.messages.last().unwrap().role, Role::Assistant);
    assert!(a.pending_response.is_empty());
}

#[test]
fn ctrl_c_while_idle_does_nothing() {
    let mut a = app();
    type_text(&mut a, "draft");
    let eff = a.handle_key(ctrl('c'));
    assert!(matches!(eff, Effect::Nothing));
    assert!(!a.should_quit());
    assert_eq!(a.input, "draft");
    assert_eq!(a.messages.len(), 1);
}

#[test]
fn ctrl_l_clears_the_screen() {
    let mut a = app();
    a.scroll_offset = 9;
    type_text(&mut a, "keep");
    a.handle_key(ctrl('l'));
    assert!(a.messages.is_empty());
    assert_eq!(a.scroll_offset, 0);
    assert_eq!(a.input, "keep");
}

#[test]
fn scroll_by_the_most_negative_delta() {
    let mut a = app();
    a.scroll_offset = 40000;
    a.handle_scroll(i16::MIN);
    assert_eq!(a.scroll_offset, 7232);
    assert_eq!(a.mouse_events, 1);
    a.handle_scroll(i16::MIN);
    assert_eq!(a.scroll_offset, 0);
}

#[test]
fn scrolling_saturates() {
    let mut a = app();
    a.handle_key(key(KeyCode::PageUp));
    assert_eq!(a.scroll_offset, 20);
    a.handle_key(ctrl('u'));
    assert_eq!(a.scroll_offset, 30);
    a.handle_key(key(KeyCode::PageDown));
    a.handle_key(key(KeyCode::PageDown));
    assert_eq!(a.scroll_offset, 0);
    a.scroll_offset = u16::MAX - 5;
    a.handle_key(key(KeyCode::PageUp));
    assert_eq!(a.scroll_offset, u16::MAX);
    a.handle_scroll(-3);
    assert_eq!(a.scroll_offset, u16::MAX - 3);
    a.handle_scroll(3);
    assert_eq!(a.scroll_offset, u16::MAX);
    assert_eq!(a.mouse_events, 2);
    a.scroll_offset = 1;
    a.handle_scroll(-3);
    assert_eq!(a.scroll_offset, 0);
}

#[test]
fn blank_enter_changes_nothing() {
    let mut a = app();
    type_text(&mut a, "   ");
    let eff = a.handle_key(key(KeyCode::Enter));
    assert!(matches!(eff, Effect::Nothing));
    assert_eq!(a.input, "   ");
    assert_eq!(a.cursor, 3);
    assert_eq!(a.messages.len(), 1);
}

#[test]
fn enter_sends_message_and_starts_stream() {
    let mut a = app();
    a.messages.push(kaishi::app::ChatMessage { role: Role::Assistant, content: "earlier".into(), tokens: None });
    type_text(&mut a, "  hi there ");
    let eff = a.handle_key(key(KeyCode::Enter));
    assert_eq!(a.input, "");
    assert_eq!(a.cursor, 0);
    assert!(matches!(a.status, AgentStatus::Streaming));
    assert_eq!(last(&a), "hi there");
    assert_eq!(a.messages.last().unwrap().role, Role::User);
    match eff {
        Effect::Stream { messages, session_id } => {
            assert_eq!(session_id, a.session_id);
            let pairs: Vec<(String, String)> = messages.into_iter().map(|m| (m.role, m.content)).collect();
            assert_eq!(pairs, vec![
                ("assistant".to_string(), "earlier".to_string()),
                ("user".to_string(), "hi there".to_string()),
            ]);
        }
        other => panic!("unexpected effect {:?}", other),
    }
    // Enter while streaming does nothing.
    type_text(&mut a, "more");
    let eff = a.handle_key(key(KeyCode::Enter));
    assert!(matches!(eff, Effect::Nothing));
    assert_eq!(a.input, "more");
}

#[test]
fn streamed_reply_is_collected() {
    let mut a = app();
    a.status = AgentStatus::Streaming;
    a.scroll_offset = 7;
    a.handle_stream_delta("Hel");
    assert_eq!(a.scroll_offset, 0);
    a.handle_stream_delta("lo");
    a.handle_stream_done(Some(Usage { input_tokens: 5, output_tokens: 2 }));
    assert_eq!(last(&a), "Hello");
    let m = a.messages.last().unwrap();
    assert_eq!(m.role, Role::Assistant);
    assert_eq!(m.tokens.unwrap().input_tokens, 5);
    assert!(a.pending_response.is_empty());
    assert!(matches!(a.status, AgentStatus::Idle));
    let n = a.messages.len();
    a.handle_stream_done(None);
    assert_eq!(a.messages.len(), n);
}

#[test]
fn stream_error_keeps_partial_reply() {
    let mut a = app();
    a.status = AgentStatus::Streaming;
    a.handle_stream_delta("part");
    a.handle_stream_error("boom");
    let c = contents(&a);
    assert_eq!(c[c.len() - 2], "part");
    assert_eq!(c[c.len() - 1], "⚠ Error: boom");
    assert!(matches!(a.status, AgentStatus::Idle));
    let mut b = app();
    b.handle_stream_error("x");
    assert_eq!(b.messages.len(), 2);
}

#[test]
fn events_dispatch() {
    let mut a = app();
    a.handle_event(AppEvent::Tick);
    assert_eq!(a.tick, 1);
    a.tick = u64::MAX;
    a.tick();
    assert_eq!(a.tick, 0);
    a.handle_event(AppEvent::MouseScroll(3));
    assert_eq!(a.scroll_offset, 3);
    a.handle_event(AppEvent::StreamDelta("x".into()));
    a.handle_event(AppEvent::StreamDone(None));
    assert_eq!(last(&a), "x");
    a.handle_event(AppEvent::Resize(10, 10));
    a.handle_event(AppEvent::StreamError("e".into()));
    assert_eq!(last(&a), "⚠ Error: e");
    a.handle_event(AppEvent::Key(ctrl('c')));
    assert!(!a.should_quit());
    a.handle_event(AppEvent::Key(ctrl('d')));
    assert!(a.should_quit());
}

fn submit(a: &mut App, s: &str) -> Effect {
    type_text(a, s);
    a.handle_key(key(KeyCode::Enter))
}

#[test]
fn quit_commands() {
    for c in ["/quit", "/exit", "/q", "/QUIT", "/Exit now"] {
        let mut a = app();
        let eff = submit(&mut a, c);
        assert!(matches!(eff, Effect::Nothing));
        assert!(a.should_quit(), "{c}");
        assert_eq!(a.messages.len(), 1);
    }
}

#[test]
fn clear_and_new() {
    let mut a = app();
    submit(&mut a, "/clear");
    assert!(a.messages.is_empty());
    let old_id = a.session_id.clone();
    a.session_title = Some("t".into());
    submit(&mut a, "/new");
    assert_eq!(contents(&a), vec!["New session started.".to_string()]);
    assert_ne!(a.session_id, old_id);
    assert_eq!(a.session_title, None);
}

#[test]
fn model_and_help_and_unknown() {
    let mut a = app();
    submit(&mut a, "/model");
    assert_eq!(last(&a), "Model: hermes-agent");
    a.model_name = "m-1".into();
    submit(&mut a, "/MODEL");
    assert_eq!(last(&a), "Model: m-1 (display: hermes-agent)");
    submit(&mut a, "/h");
    assert!(last(&a).starts_with("Commands:\n\n/new             Start a new session\n"));
    assert!(last(&a).ends_with("\n/quit            Exit\n\nScroll: PgUp/PgDn, Ctrl+U (up 10), Ctrl+E (down)"));
    submit(&mut a, "/Frobnicate x");
    assert_eq!(last(&a), "Unknown command: /frobnicate. Type /help for commands.");
}

#[test]
fn session_commands_ask_for_work() {
    let mut a = app();
    let eff = submit(&mut a, "/sessions");
    assert!(matches!(eff, Effect::ListSessions { limit: 15 }));
    assert_eq!(last(&a), "Loading sessions…");
    let eff = submit(&mut a, "/resume");
    assert!(matches!(eff, Effect::Nothing));
    assert_eq!(last(&a), "Usage: /resume <session-id-or-prefix>");
    let eff = submit(&mut a, "/r   abc123  ");
    match eff {
        Effect::Resume { session_id } => assert_eq!(session_id, "abc123"),
        other => panic!("unexpected {:?}", other),
    }
    assert_eq!(last(&a), "Resuming session abc123…");
    let n = a.messages.len();
    match submit(&mut a, "/approve") {
        Effect::Approve { session_id } => assert_eq!(session_id, a.session_id),
        other => panic!("unexpected {:?}", other),
    }
    assert_eq!(a.messages.len(), n);
    a.approval_sent();
    assert_eq!(last(&a), "✓ Approval sent.");
    match submit(&mut a, "/deny") {
        Effect::Deny { session_id } => assert_eq!(session_id, a.session_id),
        other => panic!("unexpected {:?}", other),
    }
    a.denial_sent();
    assert_eq!(last(&a), "✗ Denial sent.");
}

fn info(id: &str, title: Option<&str>, preview: Option<&str>, source: Option<&str>, count: Option<u32>) -> SessionInfo {
    SessionInfo {
        id: id.into(),
        source: source.map(Into::into),
        model: None,
        title: title.map(Into::into),
        message_count: count,
        preview: preview.map(Into::into),
    }
}

#[test]
fn session_listing_text() {
    let mut a = app();
    submit(&mut a, "/sessions");
    let n = a.messages.len();
    a.apply_sessions(Ok(vec![
        info("20250101_abcdef123456", Some("Refactor"), None, Some("cli"), Some(12)),
        info("short", Some("(untitled)"), Some("first words"), None, None),
        info("x", None, Some(""), Some("tui"), Some(0)),
    ]));
    assert_eq!(a.messages.len(), n);
    assert_eq!(
        last(&a),
        "Recent sessions:\n   1. [20250101_abc] Refactor (cli, 12 msgs)\n   2. [short] first words (?, 0 msgs)\n   3. [x] (empty) (tui, 0 msgs)\n\nUse /resume <id-prefix> to load a session."
    );
}

#[test]
fn session_listing_numbers_right_aligned() {
    let mut a = app();
    let list: Vec<SessionInfo> = (0..11).map(|i| info(&format!("s{i}"), Some("t"), None, Some("c"), Some(i))).collect();
    a.apply_sessions(Ok(list));
    let text = last(&a).to_string();
    assert!(text.contains("\n   9. [s8] t (c, 8 msgs)\n  10. [s9] t (c, 9 msgs)\n  11. [s10] t (c, 10 msgs)\n"));
    // The welcome notice does not mention "Loading", so it stays.
    assert_eq!(a.messages.len(), 2);
}

#[test]
fn session_listing_empty_and_error() {
    let mut a = app();
    submit(&mut a, "/sessions");
    a.apply_sessions(Ok(vec![]));
    let c = contents(&a);
    assert_eq!(&c[c.len() - 2..], &["Loading sessions…".to_string(), "No sessions found.".to_string()]);
    a.apply_sessions(Err("connection refused".into()));
    assert_eq!(last(&a), "Failed to list sessions: connection refused");
}

#[test]
fn resume_loads_messages() {
    let mut a = app();
    a.session_title = Some("old".into());
    a.scroll_offset = 4;
    let msgs = vec![
        SessionMessage { role: "user".into(), content: "q".into() },
        SessionMessage { role: "assistant".into(), content: "a".into() },
        SessionMessage { role: "tool".into(), content: "t".into() },
    ];
    a.apply_resume(Ok(("0123456789abcdefXYZ".into(), msgs)));
    assert_eq!(a.session_id, "0123456789abcdefXYZ");
    assert_eq!(a.session_title, None);
    assert_eq!(a.scroll_offset, 0);
    let roles: Vec<Role> = a.messages.iter().map(|m| m.role).collect();
    assert_eq!(roles, vec![Role::User, Role::Assistant, Role::System, Role::System]);
    assert_eq!(last(&a), "✓ Resumed session 0123456789abcdef (3 messages loaded)");
    a.apply_resume(Err("404".into()));
    assert_eq!(last(&a), "Failed to resume: 404");
}

#[test]
fn startup_resume_messages() {
    let mut a = app();
    a.apply_startup_resume(Ok(("abc".into(), vec![SessionMessage { role: "user".into(), content: "q".into() }])));
    assert_eq!(contents(&a), vec!["q".to_string(), "✓ Resumed session (1 messages loaded)".to_string()]);
    assert_eq!(a.session_id, "abc");
    let mut b = app();
    b.apply_startup_resume(Err("gone".into()));
    assert_eq!(last(&b), "Failed to resume session: gone");
}
