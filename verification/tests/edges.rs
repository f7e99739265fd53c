use tg9::app::App;
use tg9::chat::Cursor;
use tg9::job::{ApiEvent, ApiJob};
use tg9::message::Message;
use tg9::screen::{
    key_action, screen_event, Action, KeyCode, KeyEvent, KeyEventKind, MouseEvent, ScreenEvent,
    TermInput, Wakeup, MODIFIER_ALT, MODIFIER_CONTROL, MODIFIER_NONE, MODIFIER_SHIFT,
};
use tg9::terminal::{
    enter_commands, exit_commands, screen_enter_commands, screen_exit_commands, TermCommand,
};
use tg9::ui::{dialog_line, dialog_lines, message_lines, status_line};
use tg9::worker::{
    page_request, worker_step, Fetch, Fetched, PageRequest, Update, Wake, WorkerAction,
};

fn note(seq: u64, text: &str) -> Message {
    Message { seq, sender: String::from("s"), body: String::from(text), timestamp: 0 }
}

fn press(code: KeyCode, modifiers: u8) -> KeyEvent {
    KeyEvent { code, modifiers, kind: KeyEventKind::Press }
}

#[test]
fn key_bindings() {
    assert_eq!(key_action(&press(KeyCode::Char('q'), MODIFIER_NONE)), Action::Quit);
    assert_eq!(key_action(&press(KeyCode::Char('c'), MODIFIER_CONTROL)), Action::Quit);
    assert_eq!(key_action(&press(KeyCode::Char('j'), MODIFIER_NONE)), Action::SelectNext);
    assert_eq!(key_action(&press(KeyCode::Char('k'), MODIFIER_NONE)), Action::SelectPrevious);
    assert_eq!(key_action(&press(KeyCode::Char('c'), MODIFIER_NONE)), Action::Ignore);
    assert_eq!(key_action(&press(KeyCode::Char('q'), MODIFIER_CONTROL)), Action::Ignore);
    assert_eq!(key_action(&press(KeyCode::Char('j'), MODIFIER_SHIFT)), Action::Ignore);
    assert_eq!(key_action(&press(KeyCode::Char('k'), MODIFIER_ALT)), Action::Ignore);
    assert_eq!(key_action(&press(KeyCode::Char('c'), MODIFIER_CONTROL | MODIFIER_SHIFT)), Action::Ignore);
    assert_eq!(key_action(&press(KeyCode::Down, MODIFIER_NONE)), Action::Ignore);
    assert_eq!(key_action(&press(KeyCode::Esc, MODIFIER_NONE)), Action::Ignore);
    assert_eq!(key_action(&press(KeyCode::F(1), MODIFIER_NONE)), Action::Ignore);
}

#[test]
fn only_key_presses_are_sent() {
    let down = press(KeyCode::Char('j'), MODIFIER_NONE);
    match screen_event(Wakeup::Input(TermInput::Key(down))) {
        Some(ScreenEvent::Key(k)) => assert_eq!(k, down),
        other => panic!("unexpected {:?}", other),
    }
    let up = KeyEvent { code: KeyCode::Char('j'), modifiers: MODIFIER_NONE, kind: KeyEventKind::Release };
    assert!(screen_event(Wakeup::Input(TermInput::Key(up))).is_none());
    let held = KeyEvent { code: KeyCode::Char('j'), modifiers: MODIFIER_NONE, kind: KeyEventKind::Repeat };
    assert!(screen_event(Wakeup::Input(TermInput::Key(held))).is_none());
}

#[test]
fn terminal_events_are_passed_on() {
    let mouse = MouseEvent { column: 3, row: 4, modifiers: MODIFIER_NONE };
    match screen_event(Wakeup::Input(TermInput::Mouse(mouse))) {
        Some(ScreenEvent::Mouse(m)) => assert_eq!(m, mouse),
        other => panic!("unexpected {:?}", other),
    }
    assert!(matches!(
        screen_event(Wakeup::Input(TermInput::Resize(80, 24))),
        Some(ScreenEvent::Resize(80, 24))
    ));
    assert!(matches!(screen_event(Wakeup::Input(TermInput::FocusLost)), Some(ScreenEvent::FocusLost)));
    assert!(matches!(screen_event(Wakeup::Input(TermInput::FocusGained)), Some(ScreenEvent::FocusGained)));
    match screen_event(Wakeup::Input(TermInput::Paste(String::from("pasted")))) {
        Some(ScreenEvent::Paste(s)) => assert_eq!(s, "pasted"),
        other => panic!("unexpected {:?}", other),
    }
}

#[test]
fn timers_and_faults_become_events() {
    assert!(matches!(screen_event(Wakeup::Tick), Some(ScreenEvent::Tick)));
    assert!(matches!(screen_event(Wakeup::Render), Some(ScreenEvent::Render)));
    assert!(matches!(screen_event(Wakeup::InputFailed), Some(ScreenEvent::Error)));
    assert!(screen_event(Wakeup::InputEnded).is_none());
}

#[test]
fn worker_runs_jobs_and_stops_when_the_reducer_is_gone() {
    let job = ApiJob::LoadMessages { chat: 4, from: Cursor::Before(9) };
    match worker_step(Wake::Job(job)) {
        WorkerAction::Run(j) => assert_eq!(j, job),
        _ => panic!("the job was not run"),
    }
    assert!(matches!(worker_step(Wake::Job(ApiJob::LoadDialogs)), WorkerAction::Run(ApiJob::LoadDialogs)));
    assert!(matches!(worker_step(Wake::JobsClosed), WorkerAction::Stop));
}

#[test]
fn worker_reports_new_messages_of_others_only() {
    let incoming = Update::NewMessage { chat: 3, message: note(8, "hi"), outgoing: false };
    match worker_step(Wake::Update(incoming)) {
        WorkerAction::Emit(ApiEvent::LiveMessageNew { chat, message }) => {
            assert_eq!(chat, 3);
            assert_eq!(message, note(8, "hi"));
        }
        _ => panic!("the message was not reported"),
    }
    let outgoing = Update::NewMessage { chat: 3, message: note(9, "mine"), outgoing: true };
    assert!(matches!(worker_step(Wake::Update(outgoing)), WorkerAction::Continue));
    let edited = Update::MessageEdited { chat: 3, message: note(8, "hi!") };
    assert!(matches!(worker_step(Wake::Update(edited)), WorkerAction::Continue));
    let deleted = Update::MessageDeleted { channel: Some(3), messages: vec![8, 9] };
    assert!(matches!(worker_step(Wake::Update(deleted)), WorkerAction::Continue));
    assert!(matches!(worker_step(Wake::Update(Update::Other)), WorkerAction::Continue));
}

#[test]
fn worker_reports_the_end_of_the_update_stream() {
    assert!(matches!(
        worker_step(Wake::UpdateFailed),
        WorkerAction::EmitAndStop(ApiEvent::Disconnected)
    ));
    assert!(matches!(
        worker_step(Wake::UpdatesEnded),
        WorkerAction::EmitAndStop(ApiEvent::Disconnected)
    ));
}

#[test]
fn page_fetch_reports_items_in_order_then_completion() {
    let job = ApiJob::LoadMessages { chat: 6, from: Cursor::NotFetched };
    let mut fetch = Fetch::new(job);
    assert_eq!(fetch.delivered, 0);
    assert!(!fetch.done);
    match fetch.on_item(Fetched::Message(note(2, "b"))) {
        Some(ApiEvent::MessagePageItem { chat, message }) => {
            assert_eq!(chat, 6);
            assert_eq!(message, note(2, "b"));
        }
        other => panic!("unexpected {:?}", other),
    }
    match fetch.on_item(Fetched::Message(note(1, "a"))) {
        Some(ApiEvent::MessagePageItem { chat, message }) => {
            assert_eq!(chat, 6);
            assert_eq!(message, note(1, "a"));
        }
        other => panic!("unexpected {:?}", other),
    }
    assert_eq!(fetch.delivered, 2);
    match fetch.on_item(Fetched::End) {
        Some(ApiEvent::JobCompleted { job: j, delivered }) => {
            assert_eq!(j, job);
            assert_eq!(delivered, 2);
        }
        other => panic!("unexpected {:?}", other),
    }
    assert!(fetch.done);
    assert!(fetch.on_item(Fetched::Message(note(0, "late"))).is_none());
    assert!(fetch.on_item(Fetched::End).is_none());
    assert_eq!(fetch.delivered, 2);
}

#[test]
fn listing_fetch_reports_conversations() {
    let mut fetch = Fetch::new(ApiJob::LoadDialogs);
    let item = Fetched::Dialog { id: 1, name: String::from("Alice"), preview: String::from("hi") };
    match fetch.on_item(item) {
        Some(ApiEvent::ConversationDiscovered { id, name, preview }) => {
            assert_eq!(id, 1);
            assert_eq!(name, "Alice");
            assert_eq!(preview, "hi");
        }
        other => panic!("unexpected {:?}", other),
    }
    assert_eq!(fetch.delivered, 1);
    assert!(fetch.on_item(Fetched::Message(note(1, "stray"))).is_none());
    assert_eq!(fetch.delivered, 1);
    assert!(matches!(
        fetch.on_item(Fetched::End),
        Some(ApiEvent::JobCompleted { job: ApiJob::LoadDialogs, delivered: 1 })
    ));
}

#[test]
fn failed_fetch_reports_one_failure() {
    let job = ApiJob::LoadMessages { chat: 6, from: Cursor::NotFetched };
    let mut fetch = Fetch::new(job);
    let stray = Fetched::Dialog { id: 1, name: String::new(), preview: String::new() };
    assert!(fetch.on_item(stray).is_none());
    match fetch.on_item(Fetched::Failed(String::from("flood wait"))) {
        Some(ApiEvent::JobFailed { job: j, reason }) => {
            assert_eq!(j, job);
            assert_eq!(reason, "flood wait");
        }
        other => panic!("unexpected {:?}", other),
    }
    assert!(fetch.done);
    assert!(fetch.on_item(Fetched::Failed(String::from("again"))).is_none());
}

#[test]
fn fetch_events_drive_the_reducer() {
    let mut app = App::new();
    app.on_api_event(ApiEvent::ConversationDiscovered { id: 6, name: String::from("x"), preview: String::new() });
    let jobs = app.request_page(6);
    let mut fetch = Fetch::new(jobs[0]);
    for item in [Fetched::Message(note(3, "c")), Fetched::Message(note(2, "b")), Fetched::End] {
        if let Some(event) = fetch.on_item(item) {
            app.on_api_event(event);
        }
    }
    assert_eq!(app.chat(0).messages.len(), 2);
    assert_eq!(app.chat(0).messages.get(0).body, "b");
    assert!(!app.chat(0).loading);
    assert_eq!(app.chat(0).cursor, Cursor::Exhausted);
}

#[test]
fn dialog_line_format() {
    assert_eq!(dialog_line(true, &String::from("Alice"), &String::from("hi")), "*[Alice]: hi");
    assert_eq!(dialog_line(false, &String::from("Bob"), &String::from("")), " [Bob]: ");
    assert_eq!(dialog_line(false, &String::new(), &String::from("x")), " []: x");
}

#[test]
fn dialog_lines_mark_the_selection() {
    let mut app = App::new();
    assert_eq!(dialog_lines(&app), Vec::<String>::new());
    app.on_api_event(ApiEvent::ConversationDiscovered {
        id: 1,
        name: String::from("Alice"),
        preview: String::from("hi"),
    });
    app.on_api_event(ApiEvent::ConversationDiscovered {
        id: 2,
        name: String::from("Bob"),
        preview: String::from("yo"),
    });
    assert_eq!(dialog_lines(&app), vec![" [Alice]: hi", " [Bob]: yo"]);
    app.on_screen_event(ScreenEvent::Key(press(KeyCode::Char('j'), MODIFIER_NONE)));
    assert_eq!(dialog_lines(&app), vec!["*[Alice]: hi", " [Bob]: yo"]);
    app.on_screen_event(ScreenEvent::Key(press(KeyCode::Char('j'), MODIFIER_NONE)));
    assert_eq!(dialog_lines(&app), vec![" [Alice]: hi", "*[Bob]: yo"]);
}

#[test]
fn message_lines_follow_the_cache() {
    let mut app = App::new();
    assert_eq!(message_lines(&app), Vec::<String>::new());
    app.on_api_event(ApiEvent::ConversationDiscovered { id: 1, name: String::from("a"), preview: String::new() });
    app.on_api_event(ApiEvent::MessagePageItem { chat: 1, message: note(2, "second") });
    app.on_api_event(ApiEvent::MessagePageItem { chat: 1, message: note(1, "first") });
    app.on_api_event(ApiEvent::LiveMessageNew { chat: 1, message: note(3, "third") });
    assert_eq!(message_lines(&app), Vec::<String>::new());
    app.on_screen_event(ScreenEvent::Key(press(KeyCode::Char('j'), MODIFIER_NONE)));
    assert_eq!(message_lines(&app), vec!["first", "second", "third"]);
}

#[test]
fn taking_the_terminal_with_everything() {
    assert_eq!(
        enter_commands(true, true),
        vec![
            TermCommand::EnableRawMode,
            TermCommand::EnterAlternateScreen,
            TermCommand::HideCursor,
            TermCommand::EnableMouseCapture,
            TermCommand::EnableBracketedPaste,
            TermCommand::StartEvents
        ]
    );
    assert_eq!(
        exit_commands(true, true, true),
        vec![
            TermCommand::Flush,
            TermCommand::DisableBracketedPaste,
            TermCommand::DisableMouseCapture,
            TermCommand::LeaveAlternateScreen,
            TermCommand::ShowCursor,
            TermCommand::DisableRawMode
        ]
    );
}

#[test]
fn taking_the_terminal_without_mouse_or_paste() {
    assert_eq!(
        enter_commands(false, false),
        vec![TermCommand::EnableRawMode, TermCommand::EnterAlternateScreen, TermCommand::HideCursor, TermCommand::StartEvents]
    );
    assert_eq!(
        enter_commands(true, false),
        vec![TermCommand::EnableRawMode, TermCommand::EnterAlternateScreen, TermCommand::HideCursor, TermCommand::EnableMouseCapture, TermCommand::StartEvents]
    );
    assert_eq!(
        enter_commands(false, true),
        vec![TermCommand::EnableRawMode, TermCommand::EnterAlternateScreen, TermCommand::HideCursor, TermCommand::EnableBracketedPaste, TermCommand::StartEvents]
    );
    assert_eq!(
        exit_commands(true, false, false),
        vec![TermCommand::Flush, TermCommand::LeaveAlternateScreen, TermCommand::ShowCursor, TermCommand::DisableRawMode]
    );
    assert_eq!(
        exit_commands(true, true, false),
        vec![TermCommand::Flush, TermCommand::DisableMouseCapture, TermCommand::LeaveAlternateScreen, TermCommand::ShowCursor, TermCommand::DisableRawMode]
    );
    assert_eq!(
        exit_commands(true, false, true),
        vec![TermCommand::Flush, TermCommand::DisableBracketedPaste, TermCommand::LeaveAlternateScreen, TermCommand::ShowCursor, TermCommand::DisableRawMode]
    );
}

#[test]
fn nothing_is_given_back_outside_raw_mode() {
    assert_eq!(exit_commands(false, true, true), vec![]);
    assert_eq!(exit_commands(false, false, false), vec![]);
}

#[test]
fn page_request_follows_the_cursor() {
    assert_eq!(page_request(Cursor::NotFetched), PageRequest::Newest { limit: 30 });
    assert_eq!(page_request(Cursor::Before(71)), PageRequest::Older { before: 71, limit: 30 });
    assert_eq!(
        page_request(Cursor::Before(2147483647)),
        PageRequest::Older { before: i32::MAX, limit: 30 }
    );
    assert_eq!(
        page_request(Cursor::Before(2147483648)),
        PageRequest::Older { before: i32::MAX, limit: 30 }
    );
    assert_eq!(
        page_request(Cursor::Before(u64::MAX)),
        PageRequest::Older { before: i32::MAX, limit: 30 }
    );
    assert_eq!(page_request(Cursor::Exhausted), PageRequest::Nothing);
}

#[test]
fn message_lines_show_the_selected_chat_only() {
    let mut app = App::new();
    app.on_api_event(ApiEvent::ConversationDiscovered { id: 1, name: String::from("a"), preview: String::new() });
    app.on_api_event(ApiEvent::ConversationDiscovered { id: 2, name: String::from("b"), preview: String::new() });
    app.on_api_event(ApiEvent::LiveMessageNew { chat: 1, message: note(1, "one") });
    app.on_api_event(ApiEvent::LiveMessageNew { chat: 2, message: note(5, "x") });
    app.on_api_event(ApiEvent::LiveMessageNew { chat: 2, message: note(6, "y") });
    app.on_screen_event(ScreenEvent::Key(press(KeyCode::Char('j'), MODIFIER_NONE)));
    assert_eq!(message_lines(&app), vec!["one"]);
    app.on_screen_event(ScreenEvent::Key(press(KeyCode::Char('j'), MODIFIER_NONE)));
    assert_eq!(message_lines(&app), vec!["x", "y"]);
}

#[test]
fn status_line_shows_the_condition_of_the_session() {
    let mut app = App::new();
    assert_eq!(status_line(&app), "tg9 v0.1");
    app.on_api_event(ApiEvent::Disconnected);
    assert_eq!(status_line(&app), "tg9 v0.1 | disconnected");
    app.on_api_event(ApiEvent::JobFailed { job: ApiJob::LoadDialogs, reason: String::from("no route") });
    assert_eq!(status_line(&app), "tg9 v0.1 | no route");
}

#[test]
fn status_line_shows_a_failure_while_connected() {
    let mut app = App::new();
    app.on_api_event(ApiEvent::JobFailed { job: ApiJob::LoadDialogs, reason: String::new() });
    assert_eq!(status_line(&app), "tg9 v0.1 | ");
}

#[test]
fn taking_the_screen_and_giving_it_back() {
    assert_eq!(
        screen_enter_commands(),
        vec![
            TermCommand::EnableRawMode,
            TermCommand::EnterAlternateScreen,
            TermCommand::HideCursor,
            TermCommand::EnableMouseCapture,
            TermCommand::EnableBracketedPaste,
            TermCommand::StartEvents
        ]
    );
    assert_eq!(
        screen_exit_commands(true),
        vec![
            TermCommand::Flush,
            TermCommand::LeaveAlternateScreen,
            TermCommand::ShowCursor,
            TermCommand::DisableMouseCapture,
            TermCommand::DisableBracketedPaste,
            TermCommand::DisableRawMode
        ]
    );
    assert_eq!(screen_exit_commands(false), vec![]);
}
