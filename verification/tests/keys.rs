use rustycode::input::{
    handle_key_burst, handle_key_event, handle_mouse_event, handle_paste, key_burst_to_paste,
    normalize_newlines_of, Action, KeyBurst, KeyCode, KeyEvent, KeyEventKind, KeyModifiers,
    MouseEvent, MouseEventKind,
};
use rustycode::state::{App, ChatMode, Dialog, Page};
use rustycode::types::{PermissionRequest, SessionStatus};

fn app() -> App {
    App::new("http://localhost:4000".to_string())
}

fn key(code: KeyCode) -> KeyEvent {
    KeyEvent::new(code, KeyModifiers::none())
}

fn ctrl(c: char) -> KeyEvent {
    KeyEvent::new(KeyCode::Char(c), KeyModifiers::control())
}

fn press(app: &mut App, k: KeyEvent) -> Action {
    assert!(app.ready_for_key());
    handle_key_event(app, k)
}

fn type_str(app: &mut App, s: &str) {
    for c in s.chars() {
        press(app, key(KeyCode::Char(c)));
    }
}

fn perm(id: &str) -> PermissionRequest {
    PermissionRequest {
        id: id.to_string(),
        session_id: "s-1".to_string(),
        permission: None,
        patterns: None,
        always: None,
        description: None,
    }
}

#[test]
fn typing_then_enter_sends() {
    let mut a = app();
    type_str(&mut a, "hi");
    assert_eq!(a.input_text, "hi");
    assert!(matches!(press(&mut a, key(KeyCode::Enter)), Action::SendMessage));
}

#[test]
fn enter_on_blank_input_does_nothing() {
    let mut a = app();
    type_str(&mut a, "  ");
    assert!(matches!(press(&mut a, key(KeyCode::Enter)), Action::Nothing));
}

#[test]
fn shift_enter_inserts_newline() {
    let mut a = app();
    type_str(&mut a, "a");
    press(&mut a, KeyEvent::new(KeyCode::Enter, KeyModifiers::shift()));
    type_str(&mut a, "b");
    assert_eq!(a.input_text, "a\nb");
}

#[test]
fn release_events_are_ignored() {
    let mut a = app();
    let mut k = key(KeyCode::Char('x'));
    k.kind = KeyEventKind::Release;
    assert!(matches!(press(&mut a, k), Action::Nothing));
    assert!(a.input_text.is_empty());
}

#[test]
fn ctrl_c_with_empty_input_asks_to_quit() {
    let mut a = app();
    assert!(matches!(press(&mut a, ctrl('c')), Action::Nothing));
    assert_eq!(a.active_dialog, Some(Dialog::Quit));
    assert!(matches!(press(&mut a, key(KeyCode::Char('y'))), Action::Quit));
    assert!(a.active_dialog.is_none());
}

#[test]
fn quit_dialog_n_stays() {
    let mut a = app();
    press(&mut a, ctrl('c'));
    assert!(matches!(press(&mut a, key(KeyCode::Char('n'))), Action::Nothing));
    assert!(a.active_dialog.is_none());
}

#[test]
fn ctrl_c_with_text_asks_to_quit() {
    let mut a = app();
    type_str(&mut a, "abc");
    assert!(matches!(press(&mut a, ctrl('c')), Action::Nothing));
    assert_eq!(a.active_dialog, Some(Dialog::Quit));
    assert_eq!(a.input_text, "abc");
}

#[test]
fn question_mark_opens_help() {
    let mut a = app();
    type_str(&mut a, "ab");
    assert!(matches!(press(&mut a, key(KeyCode::Char('?'))), Action::Nothing));
    assert_eq!(a.active_dialog, Some(Dialog::Help));
    assert_eq!(a.input_text, "ab");
    press(&mut a, key(KeyCode::Esc));
    press(&mut a, KeyEvent::new(KeyCode::Char('?'), KeyModifiers::shift()));
    assert_eq!(a.active_dialog, Some(Dialog::Help));
}

#[test]
fn ctrl_c_when_busy_aborts() {
    let mut a = app();
    a.is_busy = true;
    assert!(matches!(press(&mut a, ctrl('c')), Action::AbortSession));
}

#[test]
fn ctrl_c_busy_from_status_map_aborts() {
    let mut a = app();
    a.current_session = None;
    a.session_statuses.insert("x".to_string(), SessionStatus::Busy);
    // No current session: the busy flag decides.
    assert!(matches!(press(&mut a, ctrl('c')), Action::Nothing));
}

#[test]
fn global_shortcuts_open_dialogs() {
    let mut a = app();
    press(&mut a, ctrl('o'));
    assert_eq!(a.active_dialog, Some(Dialog::Sessions));
    press(&mut a, key(KeyCode::Esc));
    assert!(a.active_dialog.is_none());
    press(&mut a, ctrl('k'));
    assert_eq!(a.active_dialog, Some(Dialog::Models));
    press(&mut a, key(KeyCode::Esc));
    press(&mut a, ctrl('p'));
    assert_eq!(a.active_dialog, Some(Dialog::Commands));
    press(&mut a, key(KeyCode::Esc));
    press(&mut a, ctrl('t'));
    assert_eq!(a.active_dialog, Some(Dialog::Themes));
    press(&mut a, key(KeyCode::Esc));
    press(&mut a, key(KeyCode::F(1)));
    assert_eq!(a.active_dialog, Some(Dialog::Help));
    press(&mut a, key(KeyCode::Char('q')));
    assert!(a.active_dialog.is_none());
}

#[test]
fn ctrl_n_creates_session() {
    let mut a = app();
    assert!(matches!(press(&mut a, ctrl('n')), Action::CreateSession));
}

#[test]
fn ctrl_b_toggles_sidebar_twice_back() {
    let mut a = app();
    press(&mut a, ctrl('b'));
    assert!(a.sidebar_visible);
    press(&mut a, ctrl('b'));
    assert!(!a.sidebar_visible);
}

#[test]
fn ctrl_l_switches_page() {
    let mut a = app();
    press(&mut a, ctrl('l'));
    assert_eq!(a.active_page, Page::Logs);
    press(&mut a, ctrl('l'));
    assert_eq!(a.active_page, Page::Chat);
}

#[test]
fn tab_toggles_mode_twice_back() {
    let mut a = app();
    press(&mut a, key(KeyCode::BackTab));
    assert_eq!(a.chat_mode, ChatMode::Plan);
    press(&mut a, key(KeyCode::BackTab));
    assert_eq!(a.chat_mode, ChatMode::Build);
    assert_eq!(ChatMode::Build.toggle().toggle(), ChatMode::Build);
    assert_eq!(ChatMode::Plan.label(), "Plan");
}

#[test]
fn arrows_move_cursor_and_scroll() {
    let mut a = app();
    type_str(&mut a, "abc");
    press(&mut a, key(KeyCode::Left));
    press(&mut a, key(KeyCode::Left));
    assert_eq!(a.input_cursor, 1);
    press(&mut a, ctrl('e'));
    assert_eq!(a.input_cursor, 3);
    press(&mut a, ctrl('a'));
    assert_eq!(a.input_cursor, 0);
    assert_eq!(a.input_text, "abc");
    press(&mut a, key(KeyCode::Up));
    assert_eq!(a.message_scroll, 1);
    press(&mut a, key(KeyCode::Down));
    assert_eq!(a.message_scroll, 0);
}

#[test]
fn typing_then_backspace_restores_input() {
    let mut a = app();
    type_str(&mut a, "ab");
    press(&mut a, key(KeyCode::Left));
    press(&mut a, key(KeyCode::Char('x')));
    assert_eq!(a.input_text, "axb");
    press(&mut a, key(KeyCode::Backspace));
    assert_eq!(a.input_text, "ab");
    assert_eq!(a.input_cursor, 1);
}

#[test]
fn permission_dialog_replies_in_order() {
    let mut a = app();
    a.pending_permissions.push(perm("p1"));
    a.pending_permissions.push(perm("p2"));
    a.active_dialog = Some(Dialog::Permission);
    match press(&mut a, key(KeyCode::Char('y'))) {
        Action::ReplyPermission(pid, sid, resp) => {
            assert_eq!(pid, "p1");
            assert_eq!(sid, "s-1");
            assert_eq!(resp, "once");
        }
        _ => panic!("expected a reply"),
    }
    assert_eq!(a.active_dialog, Some(Dialog::Permission));
    match press(&mut a, key(KeyCode::Char('a'))) {
        Action::ReplyPermission(pid, _, resp) => {
            assert_eq!(pid, "p2");
            assert_eq!(resp, "always");
        }
        _ => panic!("expected a reply"),
    }
    assert!(a.pending_permissions.is_empty());
    assert!(a.active_dialog.is_none());
}

#[test]
fn permission_dialog_n_rejects_and_other_keys_wait() {
    let mut a = app();
    a.pending_permissions.push(perm("p1"));
    a.active_dialog = Some(Dialog::Permission);
    assert!(matches!(press(&mut a, key(KeyCode::Char('z'))), Action::Nothing));
    assert_eq!(a.pending_permissions.len(), 1);
    match press(&mut a, key(KeyCode::Char('n'))) {
        Action::ReplyPermission(_, _, resp) => assert_eq!(resp, "reject"),
        _ => panic!("expected a reply"),
    }
}

#[test]
fn theme_dialog_enter_saves_theme() {
    let mut a = app();
    press(&mut a, ctrl('t'));
    press(&mut a, key(KeyCode::Down));
    match press(&mut a, key(KeyCode::Enter)) {
        Action::SaveTheme(name) => assert_eq!(name, a.theme_name),
        _ => panic!("expected the theme to be saved"),
    }
    assert!(a.active_dialog.is_none());
    assert_ne!(a.theme_name, "default");
}

#[test]
fn paste_inserts_normalized_text_at_cursor() {
    let mut a = app();
    type_str(&mut a, "ab");
    press(&mut a, key(KeyCode::Left));
    handle_paste(&mut a, "X\r\nY");
    assert_eq!(a.input_text, "aX\nYb");
    assert_eq!(a.input_cursor, 4);
    assert_eq!(a.paste_line_count, Some(2));
}

#[test]
fn paste_single_line_is_plain_typing() {
    let mut a = app();
    handle_paste(&mut a, "hello");
    assert_eq!(a.input_text, "hello");
    assert_eq!(a.input_cursor, 5);
    assert_eq!(a.paste_line_count, None);
}

#[test]
fn normalize_newlines_has_no_cr_and_is_idempotent() {
    let s: Vec<char> = "a\r\nb\rc\n".chars().collect();
    let once = normalize_newlines_of(&s);
    assert_eq!(once.iter().collect::<String>(), "a\nb\nc\n");
    assert!(!once.contains(&'\r'));
    let twice = normalize_newlines_of(&once);
    assert_eq!(once, twice);
}

#[test]
fn mouse_wheel_scrolls_messages_or_dialog() {
    let mut a = app();
    let up = MouseEvent { kind: MouseEventKind::ScrollUp, column: 0, row: 0 };
    let down = MouseEvent { kind: MouseEventKind::ScrollDown, column: 0, row: 0 };
    handle_mouse_event(&mut a, up);
    assert_eq!(a.message_scroll, 1);
    handle_mouse_event(&mut a, down);
    handle_mouse_event(&mut a, down);
    assert_eq!(a.message_scroll, 0);
    a.active_dialog = Some(Dialog::Sessions);
    handle_mouse_event(&mut a, down);
    assert_eq!(a.dialog_selected, 1);
    handle_mouse_event(&mut a, up);
    handle_mouse_event(&mut a, up);
    assert_eq!(a.dialog_selected, 0);
}

#[test]
fn key_burst_text_maps_newline_keys() {
    let keys = vec![
        key(KeyCode::Char('a')),
        key(KeyCode::Enter),
        key(KeyCode::Char('\r')),
        ctrl('j'),
        key(KeyCode::Left),
        key(KeyCode::Char('b')),
    ];
    let t = key_burst_to_paste(&keys);
    assert_eq!(t, "a\n\n\nb");
    assert!(!t.contains('\r'));
}

#[test]
fn short_burst_is_left_alone_long_burst_pastes() {
    let mut a = app();
    let short = vec![key(KeyCode::Char('a')); 4];
    assert!(!handle_key_burst(&mut a, &short));
    assert!(a.input_text.is_empty());
    let long = vec![key(KeyCode::Char('a')); 5];
    assert!(handle_key_burst(&mut a, &long));
    assert_eq!(a.input_text, "aaaaa");
}

#[test]
fn key_burst_windows() {
    let mut b = KeyBurst::start(key(KeyCode::Char('a')), 100);
    assert_eq!(b.wait_until(), 105);
    b.on_key(key(KeyCode::Char('b')), 103);
    assert_eq!(b.keys.len(), 2);
    assert_eq!(b.wait_until(), 108);
    let mut r = key(KeyCode::Char('c'));
    r.kind = KeyEventKind::Release;
    b.on_key(r, 298);
    assert_eq!(b.keys.len(), 2);
    assert_eq!(b.wait_until(), 300);
}

#[test]
fn scroll_down_then_up_returns_when_scrolled() {
    let mut a = app();
    a.message_scroll = 3;
    a.scroll_down();
    a.scroll_up();
    assert_eq!(a.message_scroll, 3);
    a.message_scroll = 0;
    a.scroll_down();
    a.scroll_up();
    assert_eq!(a.message_scroll, 1);
}

#[test]
fn open_then_close_is_close() {
    let mut a = app();
    a.dialog_filter = "x".to_string();
    a.dialog_selected = 2;
    a.open_dialog(Dialog::Models);
    a.close_dialog();
    assert!(a.active_dialog.is_none());
    assert!(a.dialog_filter.is_empty());
    assert_eq!(a.dialog_selected, 0);
}

#[test]
fn tab_switches_pages_and_home_end_jump() {
    let mut a = app();
    press(&mut a, key(KeyCode::Tab));
    assert_eq!(a.active_page, Page::Logs);
    press(&mut a, key(KeyCode::Tab));
    assert_eq!(a.active_page, Page::Chat);
    press(&mut a, key(KeyCode::Home));
    assert_eq!(a.message_scroll, usize::MAX);
    press(&mut a, key(KeyCode::End));
    assert_eq!(a.message_scroll, 0);
}

#[test]
fn ctrl_u_clears_input() {
    let mut a = app();
    type_str(&mut a, "abc");
    press(&mut a, ctrl('u'));
    assert!(a.input_text.is_empty());
    assert_eq!(a.input_cursor, 0);
}

#[test]
fn after_action_stops_at_quit() {
    let mut a = app();
    assert!(!a.after_action(false));
    assert!(!a.should_quit);
    assert!(a.after_action(true));
    assert!(a.should_quit);
}
