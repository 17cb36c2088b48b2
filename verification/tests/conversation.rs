use ai_edit::chat::AiChat;
use ai_edit::edit::{ActiveView, ApplyError, Direction, Edit, Range};
use ai_edit::layout::Rect;
use ai_edit::model::{Action, Event, KeyCode, KeyEvent, Modifiers, APPLIED, ID, PROMPT_LABEL};
use ai_edit::process::PiError;
use ai_edit::screen::{Pane, PromptLine};

/// The number of the conversation.
const NUMBER: u64 = 21;

const PLAIN: Modifiers = Modifiers { shift: false, control: false, alt: false, super_key: false };
const CONTROL: Modifiers = Modifiers { control: true, ..PLAIN };

const TEXT: &str = "α let a = 1; ω";

fn chat_at(anchor: usize, head: usize) -> AiChat {
    AiChat::new(
        7,
        8,
        Range { anchor, head },
        3,
        "let a = 1;".into(),
        "rust".into(),
        "main.rs".into(),
        b"/work".to_vec(),
        NUMBER,
    )
}

fn chat() -> AiChat {
    chat_at(2, 12)
}

fn active(document_id: u64, view_id: u64, version: i32, text: &str) -> ActiveView {
    ActiveView { document_id, view_id, version, text: text.into() }
}

fn key(code: KeyCode) -> Event {
    Event::Key(KeyEvent { code, modifiers: PLAIN })
}

fn ctrl(c: char) -> Event {
    Event::Key(KeyEvent { code: KeyCode::Char(c), modifiers: CONTROL })
}

fn send(chat: &mut AiChat, line: &str) -> (String, String) {
    match chat.handle_event(key(KeyCode::Enter), line) {
        Action::Submit(run) => {
            assert_eq!(run.cwd, b"/work");
            assert_eq!(run.number, NUMBER);
            (run.request, run.input)
        }
        action => panic!("not sent: {action:?}"),
    }
}

/// A chat that reviews `replacement`.
fn reviewing(replacement: &str) -> AiChat {
    let mut chat = chat();
    let (request, _) = send(&mut chat, "change it");
    assert_eq!(chat.finish_request(NUMBER, request, Ok(replacement.into())), None);
    chat
}

const INNER: Rect = Rect { x: 1, y: 2, width: 60, height: 10 };
const AREA: Rect = Rect { x: 0, y: 0, width: 11, height: 4 };

fn help(chat: &mut AiChat) -> (String, &'static str) {
    let help = chat.render(INNER).help.unwrap();
    assert_eq!((help.x, help.y, help.width), (1, 11, 60));
    (help.text, help.style)
}

const FIRST_HELP: &str = "enter send · page-up/down scroll · esc cancel";
const REVIEW_HELP: &str = "enter send feedback · ctrl-s apply · page-up/down scroll · esc cancel";

#[test]
fn new_chat_shows_the_selected_code() {
    let mut chat = chat();
    let panes = chat.render_code(AREA);
    assert_eq!(
        panes,
        vec![Pane {
            area: AREA,
            title: " Selected code ",
            border: "ui.text",
            style: "ui.text",
            text: "let a = 1;",
            scroll: 0,
        }]
    );
    assert_eq!(help(&mut chat), (FIRST_HELP.to_string(), "ui.text.inactive"));
    assert_eq!(chat.id(), Some("ai-chat"));
    assert_eq!(ID, "ai-chat");
    assert_eq!(PROMPT_LABEL, "Message: ");
}

#[test]
fn first_request_holds_the_context() {
    let mut chat = chat();
    let (request, input) = send(&mut chat, "  rename \"a\"\n");
    assert_eq!(request, "rename \"a\"");
    assert_eq!(
        input,
        "{\"original\":\"let a = 1;\",\"current\":\"let a = 1;\",\"language\":\"rust\",\
         \"file\":\"main.rs\",\"conversation\":[],\"request\":\"rename \\\"a\\\"\"}"
    );
}

#[test]
fn later_request_builds_on_the_proposal() {
    let mut chat = reviewing("let b = 1;");
    let (_, input) = send(&mut chat, "again");
    assert_eq!(
        input,
        "{\"original\":\"let a = 1;\",\"current\":\"let b = 1;\",\"language\":\"rust\",\
         \"file\":\"main.rs\",\"conversation\":[{\"request\":\"change it\",\
         \"replacement\":\"let b = 1;\"}],\"request\":\"again\"}"
    );
    chat.finish_request(NUMBER, "again".into(), Ok("let c = 1;".into()));
    let (_, input) = send(&mut chat, "more");
    assert!(input.contains("\"current\":\"let c = 1;\""));
    assert!(input.contains(
        "[{\"request\":\"change it\",\"replacement\":\"let b = 1;\"},\
         {\"request\":\"again\",\"replacement\":\"let c = 1;\"}]"
    ));
}

#[test]
fn blank_line_is_not_sent() {
    let mut chat = chat();
    let action = chat.handle_event(key(KeyCode::Enter), " \t\u{2003}");
    assert_eq!(action, Action::ShowError("Enter a message for pi".into()));
    assert!(chat.cursor().is_some());
    let action = chat.submit("");
    assert_eq!(action, Action::ShowError("Enter a message for pi".into()));
}

#[test]
fn proposal_is_shown_beside_the_selected_code() {
    let chat = reviewing("let b = 1;");
    assert_eq!(
        chat.render_code(AREA),
        vec![
            Pane {
                area: Rect { width: 5, ..AREA },
                title: " Old ",
                border: "diff.minus",
                style: "ui.text",
                text: "let a = 1;",
                scroll: 0,
            },
            Pane {
                area: Rect { x: 6, width: 5, ..AREA },
                title: " New ",
                border: "diff.plus",
                style: "ui.text",
                text: "let b = 1;",
                scroll: 0,
            },
        ]
    );
    assert!(chat.render_code(Rect { width: 0, ..AREA }).is_empty());
    assert!(chat.render_code(Rect { height: 0, ..AREA }).is_empty());
}

#[test]
fn panes_off_the_screen_are_recognized() {
    let far = Rect { x: 65535, ..AREA };
    assert!(chat().fits_code(far));
    assert!(!reviewing("x").fits_code(far));
    assert!(reviewing("x").fits_code(Rect { height: 0, ..far }));
    assert!(reviewing("x").fits_code(AREA));
}

#[test]
fn error_stays_until_the_next_request() {
    let mut chat = reviewing("x");
    chat.finish_request(NUMBER, "late".into(), Err(PiError::Incomplete));
    for event in [key(KeyCode::PageDown), key(KeyCode::Char('q')), ctrl('s'), Event::Paste] {
        chat.handle_event(event, "");
        assert_eq!(help(&mut chat).0, "pi failed: pi returned incomplete JSON");
    }
    send(&mut chat, "go");
    assert_eq!(help(&mut chat).0, REVIEW_HELP);
}

#[test]
fn answer_to_a_closed_dialog_does_not_reach_the_next_one() {
    let mut closed = AiChat::new(
        7,
        8,
        Range { anchor: 0, head: 1 },
        3,
        "α".into(),
        "rust".into(),
        "main.rs".into(),
        b"/work".to_vec(),
        NUMBER + 1,
    );
    let Action::Submit(run) = closed.handle_event(key(KeyCode::Enter), "go") else {
        panic!("not sent");
    };
    assert_eq!(closed.handle_event(key(KeyCode::Esc), ""), Action::Close);

    let mut next = chat();
    assert_eq!(next.finish_request(run.number, run.request.clone(), Ok("late".into())), None);
    assert_eq!(next.render_code(AREA).len(), 1);
    assert_eq!(
        next.handle_event(ctrl('s'), ""),
        Action::ShowError("Wait for pi to propose a replacement".into())
    );
    let shown = next.finish_request(run.number, run.request.clone(), Err(PiError::NoObject));
    assert_eq!(shown, None);
    assert_eq!(help(&mut next).0, FIRST_HELP);

    let (request, input) = send(&mut next, "mine");
    assert!(input.contains("\"conversation\":[]"));
    next.finish_request(run.number, run.request, Ok("late".into()));
    assert_eq!(next.cursor(), None);
    next.finish_request(NUMBER, request, Ok("x".into()));
    let (_, input) = send(&mut next, "more");
    assert!(input.contains("[{\"request\":\"mine\",\"replacement\":\"x\"}]"));
}

#[test]
fn turns_are_the_answered_requests_in_order() {
    let mut chat = chat();
    chat.finish_request(NUMBER, "a".into(), Ok("1".into()));
    chat.finish_request(NUMBER, "b".into(), Err(PiError::NoObject));
    chat.finish_request(NUMBER + 1, "c".into(), Ok("3".into()));
    chat.handle_event(key(KeyCode::PageDown), "");
    chat.render(INNER);
    chat.finish_request(NUMBER, "d".into(), Ok("4".into()));
    let (_, input) = send(&mut chat, "e");
    assert!(input.contains(
        "\"conversation\":[{\"request\":\"a\",\"replacement\":\"1\"},\
         {\"request\":\"d\",\"replacement\":\"4\"}]"
    ));
}

#[test]
fn failed_first_request_returns_to_input() {
    let mut chat = chat();
    let (request, _) = send(&mut chat, "go");
    let shown = chat.finish_request(NUMBER, request, Err(PiError::NoObject));
    assert_eq!(shown.as_deref(), Some("pi failed: pi returned no JSON object"));
    assert_eq!(help(&mut chat), ("pi failed: pi returned no JSON object".to_string(), "error"));
    assert_eq!(
        chat.handle_event(ctrl('s'), ""),
        Action::ShowError("Wait for pi to propose a replacement".into())
    );
    let (_, input) = send(&mut chat, "go");
    assert!(input.contains("\"conversation\":[]"));
    assert_eq!(help(&mut chat), (FIRST_HELP.to_string(), "ui.text.inactive"));
}

#[test]
fn failed_later_request_returns_to_review() {
    let mut chat = reviewing("let b = 1;");
    let (request, _) = send(&mut chat, "go");
    let shown = chat.finish_request(NUMBER, request, Err(PiError::Wait("gone".into())));
    assert_eq!(shown.as_deref(), Some("pi failed: gone"));
    assert_eq!(chat.handle_event(ctrl('s'), ""), Action::Apply);
    assert_eq!(chat.render_code(AREA)[1].text, "let b = 1;");
    let (_, input) = send(&mut chat, "go");
    assert!(input.contains("[{\"request\":\"change it\",\"replacement\":\"let b = 1;\"}]"));
}

#[test]
fn waiting_admits_only_scrolling_and_closing() {
    let mut chat = chat();
    send(&mut chat, "go");
    assert_eq!(chat.handle_event(key(KeyCode::Enter), "again"), Action::Consumed);
    assert_eq!(chat.handle_event(key(KeyCode::Char('x')), ""), Action::Consumed);
    assert_eq!(chat.handle_event(Event::Paste, ""), Action::Consumed);
    assert_eq!(
        chat.handle_event(ctrl('s'), ""),
        Action::ShowError("Wait for pi to propose a replacement".into())
    );
    assert_eq!(chat.handle_event(key(KeyCode::PageDown), ""), Action::Consumed);
    assert_eq!(chat.render_code(AREA)[0].scroll, 10);
    assert_eq!(chat.cursor(), None);
    assert_eq!(chat.handle_event(key(KeyCode::Esc), ""), Action::Close);
    assert_eq!(chat.handle_event(ctrl('c'), ""), Action::Close);
}

#[test]
fn other_events_reach_the_prompt_or_nothing() {
    let mut chat = chat();
    assert_eq!(chat.handle_event(key(KeyCode::Char('x')), ""), Action::Prompt);
    assert_eq!(chat.handle_event(key(KeyCode::Char('s')), ""), Action::Prompt);
    assert_eq!(chat.handle_event(key(KeyCode::Other), ""), Action::Prompt);
    for modifiers in [
        CONTROL,
        Modifiers { shift: true, ..PLAIN },
        Modifiers { alt: true, ..PLAIN },
        Modifiers { super_key: true, ..PLAIN },
    ] {
        assert!(!modifiers.is_plain());
        for code in [KeyCode::Esc, KeyCode::Enter, KeyCode::PageUp, KeyCode::PageDown] {
            let event = Event::Key(KeyEvent { code, modifiers });
            assert_eq!(chat.handle_event(event, "go"), Action::Prompt);
        }
    }
    for modifiers in [
        PLAIN,
        Modifiers { shift: true, ..CONTROL },
        Modifiers { alt: true, ..CONTROL },
        Modifiers { super_key: true, ..CONTROL },
    ] {
        assert!(!modifiers.is_only_control());
        for c in ['c', 's'] {
            let event = Event::Key(KeyEvent { code: KeyCode::Char(c), modifiers });
            assert_eq!(chat.handle_event(event, ""), Action::Prompt);
        }
    }
    assert_eq!(chat.handle_event(Event::Paste, ""), Action::Prompt);
    assert_eq!(chat.handle_event(Event::Resize, ""), Action::Consumed);
    assert_eq!(chat.handle_event(Event::Mouse, ""), Action::Consumed);
    assert_eq!(chat.handle_event(Event::Other, ""), Action::Consumed);
    assert_eq!(chat.handle_event(key(KeyCode::Esc), ""), Action::Close);
    assert_eq!(chat.handle_event(ctrl('c'), ""), Action::Close);
}

#[test]
fn scrolling_stops_at_both_ends() {
    let mut chat = reviewing("let b = 1;");
    let scroll = |chat: &AiChat| chat.render_code(AREA)[0].scroll;
    chat.handle_event(key(KeyCode::PageUp), "");
    assert_eq!(scroll(&chat), 0);
    chat.handle_event(key(KeyCode::PageDown), "");
    chat.handle_event(key(KeyCode::PageDown), "");
    chat.handle_event(key(KeyCode::PageUp), "");
    assert_eq!(scroll(&chat), 10);
    for _ in 0..7000 {
        chat.handle_event(key(KeyCode::PageDown), "");
    }
    assert_eq!(scroll(&chat), u16::MAX);
    let (request, _) = send(&mut chat, "go");
    assert_eq!(scroll(&chat), u16::MAX);
    chat.finish_request(NUMBER, request, Ok("x".into()));
    assert_eq!(scroll(&chat), 0);
}

#[test]
fn frame_tells_whether_pi_works() {
    let viewport = Rect { x: 0, y: 0, width: 100, height: 30 };
    let mut chat = chat();
    let frame = chat.render_frame(viewport).unwrap();
    assert_eq!(frame.area, Rect { x: 2, y: 2, width: 96, height: 26 });
    assert_eq!(frame.title, " Pi edit ");
    assert_eq!((frame.style, frame.border), ("ui.popup", "ui.text.focus"));
    send(&mut chat, "go");
    assert_eq!(chat.render_frame(viewport).unwrap().title, " Pi edit · working… ");
    assert_eq!(chat.render_frame(Rect { height: 4, ..viewport }), None);
}

#[test]
fn prompt_gives_way_while_pi_works() {
    let mut chat = chat();
    let prompt = Rect { x: 1, y: 10, width: 60, height: 1 };
    let none = Rect { x: 0, y: 0, width: 0, height: 0 };
    assert_eq!(chat.cursor(), Some(none));
    let content = chat.render(INNER);
    assert_eq!(content.code, Rect { x: 1, y: 2, width: 60, height: 8 });
    assert_eq!(content.prompt, PromptLine::Input { area: prompt });
    assert_eq!(chat.cursor(), Some(prompt));
    send(&mut chat, "go");
    assert_eq!(
        chat.render(INNER).prompt,
        PromptLine::Waiting { x: 1, y: 10, text: "Waiting for pi…", style: "ui.text.inactive" }
    );
    let content = chat.render(Rect { width: 0, ..INNER });
    assert_eq!(content.prompt, PromptLine::Hidden);
    assert!(chat.render(Rect { height: 1, ..INNER }).help.is_none());
}

#[test]
fn review_help_names_the_key_to_apply() {
    let mut chat = reviewing("x");
    assert_eq!(help(&mut chat), (REVIEW_HELP.to_string(), "ui.text.inactive"));
}

#[test]
fn proposal_replaces_the_selected_code() {
    let chat = reviewing("let β = 22;");
    let active = active(7, 8, 3, TEXT);
    assert!(chat.is_within(&active));
    assert_eq!(
        chat.confirm(&active),
        Action::Replace(Edit {
            from: 2,
            to: 12,
            replacement: "let β = 22;".into(),
            selection: Range { anchor: 2, head: 13 },
        })
    );
    assert_eq!(APPLIED, "Applied pi's replacement");
}

#[test]
fn backward_selection_stays_backward() {
    let mut chat = chat_at(12, 2);
    chat.finish_request(NUMBER, "r".into(), Ok("xyz".into()));
    let edit = chat.apply(&active(7, 8, 3, TEXT)).unwrap();
    assert_eq!((edit.from, edit.to), (2, 12));
    assert_eq!(edit.selection, Range { anchor: 5, head: 2 });
    assert_eq!(edit.selection.direction(), Direction::Backward);
    let chars: Vec<char> = TEXT.chars().collect();
    let after: String = chars[..edit.from]
        .iter()
        .chain(edit.replacement.chars().collect::<Vec<_>>().iter())
        .chain(chars[edit.to..].iter())
        .collect();
    assert_eq!(after, "α xyz ω");
}

#[test]
fn empty_proposal_leaves_a_cursor() {
    let mut chat = chat_at(12, 2);
    chat.finish_request(NUMBER, "r".into(), Ok(String::new()));
    let edit = chat.apply(&active(7, 8, 3, TEXT)).unwrap();
    assert_eq!(edit.selection, Range { anchor: 2, head: 2 });
    assert_eq!(edit.replacement, "");
}

#[test]
fn ranges_can_be_turned() {
    let range = Range { anchor: 4, head: 9 };
    assert_eq!((range.from(), range.to()), (4, 9));
    assert_eq!(range.with_direction(Direction::Forward), range);
    let turned = range.with_direction(Direction::Backward);
    assert_eq!(turned, Range { anchor: 9, head: 4 });
    assert_eq!((turned.from(), turned.to()), (4, 9));
}

#[test]
fn proposal_is_not_applied_to_anything_else() {
    let chat = reviewing("x");
    let refused = |active: ActiveView| {
        assert!(chat.is_within(&active));
        let error = chat.apply(&active).unwrap_err();
        assert_eq!(chat.confirm(&active), Action::ShowError(error.message()));
        error
    };
    assert_eq!(refused(active(6, 8, 3, TEXT)), ApplyError::ViewChanged);
    assert_eq!(refused(active(7, 9, 3, TEXT)), ApplyError::ViewChanged);
    assert_eq!(refused(active(6, 8, 4, "")), ApplyError::ViewChanged);
    assert_eq!(refused(active(7, 8, 4, "")), ApplyError::DocumentChanged);
    assert_eq!(refused(active(7, 8, 3, "α let b = 1; ω")), ApplyError::SelectionChanged);
    assert_eq!(
        ApplyError::ViewChanged.message(),
        "The edited view is no longer active; start the AI edit again"
    );
    assert_eq!(
        ApplyError::DocumentChanged.message(),
        "The document changed while pi was working; start the AI edit again"
    );
    assert_eq!(
        ApplyError::SelectionChanged.message(),
        "The selected code changed while pi was working; start the AI edit again"
    );
}

#[test]
fn nothing_is_applied_before_there_is_a_proposal() {
    let chat = chat();
    let active = active(7, 8, 3, "short");
    assert!(chat.is_within(&active));
    assert_eq!(chat.apply(&active), Err(ApplyError::NoProposal));
    assert_eq!(
        chat.confirm(&active),
        Action::ShowError("Wait for pi to propose a replacement".into())
    );
}

#[test]
fn range_beyond_the_text_is_recognized() {
    let chat = reviewing("x");
    assert!(!chat.is_within(&active(7, 8, 3, "α let a =")));
    assert!(chat.is_within(&active(7, 8, 2, "α let a =")));
}
