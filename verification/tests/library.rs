use rustycode::filters::{filtered_commands, filtered_models};
use rustycode::flows::{
    auto_detect_ports_list, choose_server, choose_theme, detected_server, probe_url, FailedWork,
};
use rustycode::screen::{centered_rect, inner_rect, Rect};
use rustycode::state::App;
use rustycode::status_map::StatusMap;
use rustycode::text::{find_char, rfind_char, split_lines, trim, trim_end_char};
use rustycode::themes::{get_theme, list_themes};
use rustycode::types::{Command, Model, Provider, SessionStatus};
use rustycode::view::{decimal_chars, parse_inline_spans, ThemeColor};

fn chars(s: &str) -> Vec<char> {
    s.chars().collect()
}

fn model(id: &str, name: &str) -> Model {
    Model {
        id: id.to_string(),
        provider_id: None,
        api: None,
        name: name.to_string(),
        family: None,
        status: None,
        limit: None,
        release_date: None,
    }
}

fn provider(id: &str, name: &str, models: Vec<Model>) -> Provider {
    Provider { id: id.to_string(), name: name.to_string(), source: None, env: None, key: None, models }
}

fn command(name: &str, description: Option<&str>) -> Command {
    Command {
        name: name.to_string(),
        description: description.map(|d| d.to_string()),
        agent: None,
        model: None,
        source: None,
        template: None,
        subtask: None,
        hints: None,
        shortcut: None,
        category: None,
    }
}

// ── themes ─────────────────────────────────────────────────────────────

#[test]
fn every_theme_is_found_by_its_name() {
    let names = list_themes();
    assert_eq!(names.len(), 7);
    for n in &names {
        assert_eq!(get_theme(n).name, *n);
    }
}

#[test]
fn theme_lookup_ignores_case() {
    assert_eq!(get_theme("dracula").name, "Dracula");
    assert_eq!(get_theme("TOKYO NIGHT").name, "Tokyo Night");
    for n in list_themes() {
        assert_eq!(get_theme(&n.to_lowercase()).name, n);
        assert_eq!(get_theme(&n.to_uppercase()).name, n);
    }
}

#[test]
fn unknown_theme_falls_back_to_default() {
    assert_eq!(get_theme("no such theme").name, "Default");
    assert_eq!(get_theme("").name, "Default");
}

// ── filters ────────────────────────────────────────────────────────────

#[test]
fn model_filter_matches_each_word_ignoring_case() {
    let mut app = App::new("http://h".to_string());
    app.providers.push(provider(
        "acme",
        "Acme",
        vec![model("swift-large", "Swift Large"), model("swift-small", "Swift Small")],
    ));
    app.providers.push(provider("globex", "Globex", vec![model("gx-1", "GX-1")]));
    assert_eq!(filtered_models(&app).len(), 3);
    app.dialog_filter = "SWIFT lar".to_string();
    let r = filtered_models(&app);
    assert_eq!(r.len(), 1);
    assert_eq!(r[0].model_id, "swift-large");
    assert_eq!(r[0].provider_id, "acme");
    app.dialog_filter = "globex".to_string();
    let r = filtered_models(&app);
    assert_eq!(r.len(), 1);
    assert_eq!(r[0].model_name, "GX-1");
}

#[test]
fn command_filter_searches_name_and_description() {
    let mut app = App::new("http://h".to_string());
    app.commands.push(command("init", Some("Create AGENTS.md")));
    app.commands.push(command("review", None));
    assert_eq!(filtered_commands(&app).len(), 2);
    app.dialog_filter = "agents".to_string();
    let r = filtered_commands(&app);
    assert_eq!(r.len(), 1);
    assert_eq!(r[0].name, "init");
}

// ── text ───────────────────────────────────────────────────────────────

#[test]
fn text_helpers() {
    assert_eq!(trim(&chars("  a b \t")), chars("a b"));
    assert_eq!(trim_end_char(&chars("x///"), '/'), chars("x"));
    assert_eq!(find_char(&chars("abcb"), 'b'), Some(1));
    assert_eq!(rfind_char(&chars("abcb"), 'b'), Some(3));
    assert_eq!(find_char(&chars("abc"), 'z'), None);
    assert_eq!(split_lines(&chars("a\nb\n")), vec![chars("a"), chars("b"), chars("")]);
}

#[test]
fn decimal_digits() {
    assert_eq!(decimal_chars(0), chars("0"));
    assert_eq!(decimal_chars(4100), chars("4100"));
    assert_eq!(decimal_chars(u64::MAX), chars("18446744073709551615"));
}

#[test]
fn inline_spans_mark_bold_and_code() {
    let spans = parse_inline_spans(&chars("a **b** `c` d"));
    let texts: Vec<&str> = spans.iter().map(|s| s.text.as_str()).collect();
    assert_eq!(texts, vec!["a ", "b", " ", "c", " d"]);
    assert!(spans[1].style.bold);
    assert_eq!(spans[3].style.fg, Some(ThemeColor::Warning));
}

#[test]
fn first_marker_is_taken_first() {
    let spans = parse_inline_spans(&chars("`x` **y**"));
    let texts: Vec<&str> = spans.iter().map(|s| s.text.as_str()).collect();
    assert_eq!(texts, vec!["x", " ", "y"]);
    assert_eq!(spans[0].style.fg, Some(ThemeColor::Warning));
    assert_eq!(spans[0].style.bg, Some(ThemeColor::Selection));
    assert_eq!(spans[1].style.fg, Some(ThemeColor::AssistantMsg));
    assert!(spans[2].style.bold);
}

#[test]
fn plain_line_is_one_span() {
    let spans = parse_inline_spans(&chars("just text"));
    assert_eq!(spans.len(), 1);
    assert_eq!(spans[0].text, "just text");
    assert_eq!(spans[0].style.fg, Some(ThemeColor::AssistantMsg));
    assert!(!spans[0].style.bold);
}

#[test]
fn unclosed_marker_is_shown_as_is() {
    let spans = parse_inline_spans(&chars("x **y"));
    let texts: Vec<&str> = spans.iter().map(|s| s.text.as_str()).collect();
    assert_eq!(texts, vec!["x ", "**y"]);
}

// ── status map ─────────────────────────────────────────────────────────

#[test]
fn status_map_read_after_write() {
    let mut m = StatusMap::new();
    assert!(m.is_empty());
    m.insert("a".to_string(), SessionStatus::Busy);
    m.insert("b".to_string(), SessionStatus::Idle);
    m.insert("a".to_string(), SessionStatus::Idle);
    assert_eq!(m.len(), 2);
    assert!(matches!(m.get("a"), Some(SessionStatus::Idle)));
    assert!(matches!(m.get("b"), Some(SessionStatus::Idle)));
    assert!(m.get("c").is_none());
}

// ── screen geometry ────────────────────────────────────────────────────

#[test]
fn centered_rect_is_centered() {
    let area = Rect { x: 0, y: 0, width: 100, height: 50 };
    let r = centered_rect(60, 40, area);
    assert_eq!(r, Rect { x: 20, y: 15, width: 60, height: 20 });
}

#[test]
fn inner_rect_removes_border() {
    let r = inner_rect(Rect { x: 2, y: 3, width: 10, height: 5 });
    assert_eq!(r, Rect { x: 3, y: 4, width: 8, height: 3 });
    let tiny = inner_rect(Rect { x: 2, y: 3, width: 1, height: 1 });
    assert_eq!(tiny.width, 0);
    assert_eq!(tiny.height, 0);
}

// ── start-up ───────────────────────────────────────────────────────────

#[test]
fn theme_choice_prefers_command_line_then_saved() {
    assert_eq!(choose_theme(Some("dracula".to_string()), Some("gruvbox".to_string())), "dracula");
    assert_eq!(choose_theme(None, Some("gruvbox".to_string())), "gruvbox");
    assert_eq!(choose_theme(None, None), "default");
}

#[test]
fn server_detection_takes_first_answering_port() {
    assert_eq!(auto_detect_ports_list(), vec![4000, 4001, 4002, 4100]);
    assert_eq!(probe_url(4100), "http://127.0.0.1:4100");
    assert_eq!(detected_server(&[false, true, true, false]), Some("http://127.0.0.1:4001".to_string()));
    assert_eq!(detected_server(&[false, false, false, true]), Some("http://127.0.0.1:4100".to_string()));
    assert_eq!(detected_server(&[false, false]), None);
    assert_eq!(detected_server(&[]), None);
}

#[test]
fn server_choice_order() {
    assert_eq!(
        choose_server(Some("http://x".to_string()), Some("http://y".to_string())),
        ("http://x".to_string(), false)
    );
    assert_eq!(choose_server(None, Some("http://y".to_string())), ("http://y".to_string(), true));
    assert_eq!(choose_server(None, None), ("http://127.0.0.1:4000".to_string(), false));
}

#[test]
fn failures_are_reported_with_their_prefix() {
    let mut app = App::new("http://h".to_string());
    app.report_failure(FailedWork::Send, "boom");
    assert_eq!(app.status_message, "Send failed: boom");
    app.report_failure(FailedWork::Abort, "x");
    assert_eq!(app.status_message, "Abort failed: x");
    app.report_failure(FailedWork::CreateSession, "x");
    assert_eq!(app.status_message, "Create session failed: x");
    app.report_failure(FailedWork::PermissionReply, "x");
    assert_eq!(app.status_message, "Permission reply failed: x");
    app.report_failure(FailedWork::QuestionReply, "x");
    assert_eq!(app.status_message, "Question reply failed: x");
}

#[test]
fn reconnect_status_messages() {
    let mut app = App::new("http://h".to_string());
    app.on_stream_ended();
    assert_eq!(app.status_message, "Reconnecting...");
    app.on_reconnect(false);
    assert_eq!(app.status_message, "Disconnected from server");
    assert!(!app.connected);
    app.on_reconnect(true);
    assert_eq!(app.status_message, "");
    assert!(app.connected);
    app.on_no_live_events();
    assert_eq!(app.status_message, "No live event connection");
}
