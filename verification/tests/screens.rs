use rustycode::dialog_view::{clamped_selection, permission_dialog, question_height, session_dialog, theme_dialog};
use rustycode::editor::{editor_view, CursorSpot, EditorBody};
use rustycode::message_view::{history_scroll_top, render_history, render_welcome};
use rustycode::panel_view::{session_panel, status_bar};
use rustycode::screen::{help_rows, logs_page, quit_prompt, thinking_line, toast_line, toast_rect, Rect};
use rustycode::state::App;
use rustycode::types::{
    AssistantMessage, InputField, Message, MessageTime, MessageTokens, MessageWithParts, Part,
    PermissionRequest, QuestionRequest, Session, SessionTime, TextPart, Toast, ToastLevel, ToolInput,
    ToolPart, ToolState, UserMessage,
};
use rustycode::view::{StyledLine, ThemeColor};

fn app() -> App {
    App::new("http://h".to_string())
}

fn texts(l: &StyledLine) -> Vec<&str> {
    l.spans.iter().map(|s| s.text.as_str()).collect()
}

fn joined(l: &StyledLine) -> String {
    l.spans.iter().map(|s| s.text.as_str()).collect()
}

fn session(id: &str, title: Option<&str>) -> Session {
    Session {
        id: id.to_string(),
        slug: None,
        project_id: None,
        directory: None,
        parent_id: None,
        summary: None,
        share: None,
        title: title.map(|t| t.to_string()),
        version: None,
        time: SessionTime { created: "c".to_string(), updated: "u".to_string() },
        revert: None,
    }
}

fn time() -> MessageTime {
    MessageTime { created: "t0".to_string(), completed: None }
}

fn text_part(text: &str) -> Part {
    Part::Text(TextPart { id: "p".to_string(), session_id: None, message_id: None, text: Some(text.to_string()) })
}

fn tool_part(command: &str) -> Part {
    Part::Tool(ToolPart {
        id: "t".to_string(),
        session_id: None,
        message_id: None,
        tool: Some("bash".to_string()),
        state: ToolState::Completed {
            input: Some(ToolInput {
                command: InputField::Text(command.to_string()),
                file_path: InputField::Absent,
                path: InputField::Absent,
                url: InputField::Absent,
                pattern: InputField::Absent,
            }),
            title: None,
            output: None,
        },
    })
}

fn assistant(parts: Vec<Part>) -> MessageWithParts {
    MessageWithParts {
        info: Message::Assistant(AssistantMessage {
            id: "a".to_string(),
            session_id: "s".to_string(),
            time: time(),
            parent_id: None,
            model_id: Some("m1".to_string()),
            provider_id: None,
            agent: None,
            cost: Some("0.0012".to_string()),
            tokens: Some(MessageTokens { input: Some(10), output: Some(5) }),
            error: Some("boom".to_string()),
        }),
        parts,
    }
}

#[test]
fn user_message_lines() {
    let mut a = app();
    a.messages.push(MessageWithParts {
        info: Message::User(UserMessage { id: "u".to_string(), session_id: "s".to_string(), time: time(), agent: None }),
        parts: vec![text_part("hi\nthere")],
    });
    let lines = render_history(&a);
    assert_eq!(lines.len(), 4);
    assert!(lines[0].spans.is_empty());
    assert_eq!(texts(&lines[1]), vec![" > You ", "t0"]);
    assert_eq!(joined(&lines[2]), "   hi");
    assert_eq!(joined(&lines[3]), "   there");
}

#[test]
fn assistant_message_header_footer_and_error() {
    let mut a = app();
    a.messages.push(assistant(vec![]));
    let lines = render_history(&a);
    assert_eq!(texts(&lines[1]), vec![" m1 ", "t0"]);
    let all: Vec<String> = lines.iter().map(joined).collect();
    assert!(all.contains(&"   tokens: 10in / 5out | cost: $0.0012".to_string()));
    assert!(all.contains(&"   Error: boom".to_string()));
}

#[test]
fn busy_history_ends_with_thinking() {
    let mut a = app();
    a.messages.push(assistant(vec![]));
    a.is_busy = true;
    let lines = render_history(&a);
    assert_eq!(joined(lines.last().unwrap()), "   Thinking...");
}

#[test]
fn long_tool_command_preview_is_cut() {
    let cmd = "x".repeat(70);
    let mut a = app();
    a.messages.push(assistant(vec![tool_part(&cmd)]));
    let lines = render_history(&a);
    let tool_line = joined(&lines[2]);
    assert!(tool_line.ends_with(&format!(" {}...", "x".repeat(57))));
    assert!(tool_line.contains("bash"));
}

#[test]
fn tool_command_cut_inside_a_character_backs_off_to_its_start() {
    // Byte 57 falls inside the two-byte 'é' at bytes 56..58: the cut is at byte 56.
    let cmd = format!("{}é{}", "x".repeat(56), "y".repeat(10));
    let mut a = app();
    a.messages.push(assistant(vec![tool_part(&cmd)]));
    let lines = render_history(&a);
    let tool_line = joined(&lines[2]);
    assert!(tool_line.ends_with(&format!(" {}...", "x".repeat(56))));
}

#[test]
fn scroll_top_pins_to_bottom() {
    let mut a = app();
    for _ in 0..3 {
        a.messages.push(assistant(vec![text_part("abcdefghij")]));
    }
    let lines = render_history(&a);
    let n = lines.len();
    // Wide enough that every line takes one row.
    assert_eq!(history_scroll_top(&lines, 200, 4, 0), Some((n - 4) as u16));
    assert_eq!(history_scroll_top(&lines, 200, 4, 2), Some((n - 6) as u16));
    assert_eq!(history_scroll_top(&lines, 200, 4, 1000), Some(0));
    assert_eq!(history_scroll_top(&lines, 200, 1000, 0), Some(0));
}

#[test]
fn scroll_top_counts_wrapped_rows() {
    let mut a = app();
    a.messages.push(MessageWithParts {
        info: Message::User(UserMessage { id: "u".to_string(), session_id: "s".to_string(), time: time(), agent: None }),
        parts: vec![text_part(&"z".repeat(17))],
    });
    let lines = render_history(&a);
    // Rows: blank 1, header " > You t0" (9 wide) 1 at width 10, text "   " + 17 = 20 wide: 2 rows.
    assert_eq!(history_scroll_top(&lines, 10, 1, 0), Some(3));
}

#[test]
fn welcome_is_centered_and_named() {
    let a = app();
    let lines = render_welcome(&a, 23);
    assert!(lines[..5].iter().all(|l| l.spans.is_empty()));
    assert_eq!(joined(&lines[5]), "rustycode");
    let mut b = app();
    b.project = Some(rustycode::types::Project {
        id: None,
        name: None,
        worktree: None,
        path: Some("/home/u/proj".to_string()),
        directory: None,
        vcs: None,
        summary: None,
        paths: None,
    });
    let lines = render_welcome(&b, 0);
    assert_eq!(joined(&lines[0]), "proj");
}

#[test]
fn sessions_dialog_marks_current() {
    let mut a = app();
    assert_eq!(joined(&session_dialog(&a)[0]), "  No sessions available");
    a.sessions.push(session("s1", Some("One")));
    a.sessions.push(session("s2", None));
    a.current_session = Some(session("s1", Some("One")));
    let lines = session_dialog(&a);
    assert_eq!(texts(&lines[0]), vec!["    ", "One", " (current)", "  u"]);
    assert_eq!(texts(&lines[1]), vec!["    ", "New Session", "", "  u"]);
    assert!(lines[0].spans[1].style.bold);
}

#[test]
fn side_panel_shortens_long_titles() {
    let mut a = app();
    a.sessions.push(session("s1", Some("A very long session title indeed")));
    let lines = session_panel(&a, 20);
    let all: Vec<String> = lines.iter().map(joined).collect();
    assert!(all.iter().any(|l| l.contains("A very long...")));
}

#[test]
fn side_panel_cuts_before_a_split_character() {
    let mut a = app();
    // Width 20 leaves 14 bytes; the cut is at byte 11, inside the two-byte 'é' at 10..12.
    a.sessions.push(session("s1", Some("abcdefghijé and more text")));
    let all: Vec<String> = session_panel(&a, 20).iter().map(joined).collect();
    assert!(all.iter().any(|l| l.ends_with("abcdefghij...")));
}

#[test]
fn status_bar_fills_the_width() {
    let mut a = app();
    a.connected = true;
    let spans = status_bar(&a, 120).unwrap();
    let line: String = spans.iter().map(|s| s.text.as_str()).collect();
    assert_eq!(line.chars().count(), 120);
    assert!(line.starts_with(" Build "));
    assert!(line.ends_with(" ok "));
    assert!(line.contains(" New Session "));
    assert!(line.contains(" No model "));
}

#[test]
fn theme_dialog_highlights_selection() {
    let mut a = app();
    a.dialog_selected = 100;
    let (lines, sel) = theme_dialog(&a);
    assert_eq!(lines.len(), 7);
    assert_eq!(sel, 6);
    assert_eq!(clamped_selection(3, 0), 0);
    assert_eq!(clamped_selection(3, 10), 3);
}

#[test]
fn permission_dialog_shows_oldest_request() {
    let mut a = app();
    assert_eq!(joined(&permission_dialog(&a)[0]), "  No pending permission requests.");
    a.pending_permissions.push(PermissionRequest {
        id: "p1".to_string(),
        session_id: "s".to_string(),
        permission: Some("bash".to_string()),
        patterns: Some(vec!["ls -la".to_string()]),
        always: None,
        description: Some("List files".to_string()),
    });
    let all: Vec<String> = permission_dialog(&a).iter().map(joined).collect();
    assert!(all.iter().any(|l| l.contains("bash")));
    assert!(all.iter().any(|l| l.contains("ls -la")));
    assert!(all.iter().any(|l| l.contains("List files")));
}

#[test]
fn question_height_formula() {
    let q = QuestionRequest {
        id: "q".to_string(),
        session_id: "s".to_string(),
        question: "x".repeat(25),
        options: None,
        multi_select: None,
    };
    assert_eq!(question_height(&q, 10), 4);
    assert_eq!(question_height(&q, 100), 2);
    assert_eq!(question_height(&q, 2), 6);
}

#[test]
fn editor_view_places_cursor() {
    let mut a = app();
    a.input_text = "hello world".to_string();
    a.input_cursor = 7;
    let area = Rect { x: 0, y: 10, width: 8, height: 5 };
    let v = editor_view(&a, area);
    assert_eq!(v.title, " > ");
    match &v.body {
        EditorBody::Text { layout } => {
            assert_eq!(layout.rows.len(), 2);
            assert_eq!((layout.rows[0].start, layout.rows[0].end), (0, 6));
            assert_eq!((layout.rows[1].start, layout.rows[1].end), (6, 11));
            assert_eq!((layout.cursor_row, layout.cursor_col), (1, 1));
        }
        _ => panic!("expected the text"),
    }
    assert_eq!(v.cursor, CursorSpot::At(2, 12));
}

#[test]
fn editor_view_busy_and_pasted() {
    let mut a = app();
    a.is_busy = true;
    let area = Rect { x: 0, y: 0, width: 40, height: 3 };
    let v = editor_view(&a, area);
    assert!(v.busy);
    assert_eq!(v.title, " Abort (Ctrl+C) ");
    assert_eq!(v.cursor, CursorSpot::Hidden);
    a.is_busy = false;
    a.paste_line_count = Some(12);
    let v = editor_view(&a, area);
    match &v.body {
        EditorBody::Pasted { label } => assert_eq!(label, "[Pasted 12 lines]"),
        _ => panic!("expected the paste label"),
    }
    assert_eq!(v.cursor, CursorSpot::At(18, 1));
}

#[test]
fn toast_geometry_and_line() {
    let t = Toast { message: "saved".to_string(), level: ToastLevel::Success };
    let r = toast_rect(&t, Rect { x: 0, y: 0, width: 80, height: 24 });
    assert_eq!(r, Rect { x: 69, y: 20, width: 9, height: 3 });
    let (c, spans) = toast_line(&t);
    assert_eq!(c, ThemeColor::Success);
    assert_eq!(spans[0].text, " [+] ");
    assert_eq!(spans[1].text, "saved");
}

#[test]
fn fixed_screens() {
    assert_eq!(help_rows().len(), 22);
    assert_eq!(joined(&quit_prompt()[1]), "  Are you sure you want to quit?");
    assert_eq!(joined(&logs_page()[1]), "  Logs - coming soon");
    let t = thinking_line();
    assert_eq!(t[1].text, "Thinking...");
}
