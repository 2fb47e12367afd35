use rustycode::events::{
    Event, MessageRemovedProps, PartRemovedProps, ProjectUpdatedProps, QuestionAskedProps,
    SessionErrorProps, SessionIdProps, SessionInfoProps, TuiPromptAppendProps, TuiToastProps,
    VcsBranchProps,
};
use rustycode::state::{App, Dialog};
use rustycode::types::{
    Message, MessageTime, MessageWithParts, Part, PlainPart, Project, QuestionInfo, QuestionOption,
    Session, SessionStatus, SessionTime, TextPart, ToastLevel, UserMessage, VcsInfo,
};

fn session(id: &str) -> Session {
    Session {
        id: id.to_string(),
        slug: None,
        project_id: None,
        directory: None,
        parent_id: None,
        summary: None,
        share: None,
        title: None,
        version: None,
        time: SessionTime { created: "c".to_string(), updated: "u".to_string() },
        revert: None,
    }
}

fn app_in(id: &str) -> App {
    let mut a = App::new("http://h".to_string());
    a.current_session = Some(session(id));
    a.sessions.push(session(id));
    a
}

fn user_msg(id: &str, parts: Vec<Part>) -> MessageWithParts {
    MessageWithParts {
        info: Message::User(UserMessage {
            id: id.to_string(),
            session_id: "s-1".to_string(),
            time: MessageTime { created: "t".to_string(), completed: None },
            agent: None,
        }),
        parts,
    }
}

fn plain(id: &str) -> Part {
    Part::StepFinish(PlainPart { id: id.to_string(), session_id: None, message_id: None })
}

fn project() -> Project {
    Project {
        id: Some("p".to_string()),
        name: Some("proj".to_string()),
        worktree: None,
        path: None,
        directory: None,
        vcs: None,
        summary: None,
        paths: None,
    }
}

#[test]
fn created_twice_is_created_once_and_ids_stay_unique() {
    let mut a = App::new("http://h".to_string());
    for id in ["a", "b", "a", "b", "c"] {
        a.handle_event(Event::SessionCreated { properties: SessionInfoProps { info: session(id) } }, 0);
    }
    let ids: Vec<&str> = a.sessions.iter().map(|s| s.id.as_str()).collect();
    assert_eq!(ids, vec!["c", "b", "a"]);
}

#[test]
fn deleted_session_is_gone_everywhere() {
    let mut a = app_in("s-1");
    a.sessions.push(session("s-1"));
    a.handle_event(Event::SessionDeleted { properties: SessionInfoProps { info: session("s-1") } }, 0);
    assert!(a.sessions.iter().all(|s| s.id != "s-1"));
    assert!(a.current_session.is_none());
}

#[test]
fn session_error_shows_message_and_idles() {
    let mut a = app_in("s-1");
    a.is_busy = true;
    a.handle_event(
        Event::SessionError {
            properties: SessionErrorProps { session_id: Some("s-1".to_string()), error: Some("bad".to_string()) },
        },
        0,
    );
    assert!(!a.is_busy);
    assert_eq!(a.status_message, "Error: bad");
    assert!(matches!(a.session_statuses.get("s-1"), Some(SessionStatus::Idle)));
}

#[test]
fn session_error_without_session_changes_nothing() {
    let mut a = app_in("s-1");
    a.is_busy = true;
    a.handle_event(Event::SessionError { properties: SessionErrorProps { session_id: None, error: None } }, 0);
    assert!(a.is_busy);
    assert!(a.status_message.is_empty());
}

#[test]
fn compacted_changes_nothing() {
    let mut a = app_in("s-1");
    a.handle_event(Event::SessionCompacted { properties: SessionIdProps { session_id: "s-1".to_string() } }, 0);
    assert_eq!(a.sessions.len(), 1);
}

#[test]
fn message_and_part_removal() {
    let mut a = app_in("s-1");
    a.messages.push(user_msg("m1", vec![plain("p1"), plain("p2")]));
    a.messages.push(user_msg("m2", vec![]));
    a.handle_event(
        Event::MessagePartRemoved {
            properties: PartRemovedProps {
                session_id: "s-1".to_string(),
                message_id: "m1".to_string(),
                part_id: "p1".to_string(),
            },
        },
        0,
    );
    assert_eq!(a.messages[0].parts.len(), 1);
    a.handle_event(
        Event::MessageRemoved {
            properties: MessageRemovedProps { session_id: "s-1".to_string(), message_id: "m1".to_string() },
        },
        0,
    );
    assert_eq!(a.messages.len(), 1);
    a.handle_event(
        Event::MessageRemoved {
            properties: MessageRemovedProps { session_id: "other".to_string(), message_id: "m2".to_string() },
        },
        0,
    );
    assert_eq!(a.messages.len(), 1);
}

#[test]
fn delta_for_unknown_part_changes_nothing() {
    let mut a = app_in("s-1");
    a.messages.push(user_msg("m1", vec![Part::Text(TextPart {
        id: "p1".to_string(),
        session_id: None,
        message_id: None,
        text: None,
    })]));
    a.handle_event(
        Event::MessagePartDelta {
            properties: rustycode::events::MessagePartDeltaProps {
                session_id: "s-1".to_string(),
                message_id: "m1".to_string(),
                part_id: "nope".to_string(),
                field: "text".to_string(),
                delta: Some("x".to_string()),
            },
        },
        0,
    );
    if let Part::Text(t) = &a.messages[0].parts[0] {
        assert_eq!(t.text, None);
    } else {
        panic!("expected a text part");
    }
}

#[test]
fn question_asked_queues_and_opens_dialog() {
    let mut a = app_in("s-1");
    a.handle_event(
        Event::QuestionAsked {
            properties: QuestionAskedProps {
                question: QuestionInfo {
                    id: "q1".to_string(),
                    session_id: "s-1".to_string(),
                    question: "Which?".to_string(),
                    options: Some(vec![QuestionOption {
                        label: "A".to_string(),
                        value: "a".to_string(),
                        selected: None,
                    }]),
                    multi_select: None,
                },
            },
        },
        0,
    );
    assert_eq!(a.pending_questions.len(), 1);
    assert_eq!(a.pending_questions[0].id, "q1");
    assert_eq!(a.active_dialog, Some(Dialog::Question));
}

#[test]
fn project_and_branch_updates() {
    let mut a = app_in("s-1");
    a.handle_event(Event::VcsBranchUpdated { properties: VcsBranchProps { branch: Some("dev".to_string()) } }, 0);
    assert!(a.project.is_none());
    a.handle_event(Event::ProjectUpdated { properties: ProjectUpdatedProps { info: project() } }, 0);
    assert_eq!(a.project_name(), "proj");
    a.handle_event(Event::VcsBranchUpdated { properties: VcsBranchProps { branch: Some("dev".to_string()) } }, 0);
    assert_eq!(a.vcs_branch(), Some("dev".to_string()));
    let vcs: Option<&VcsInfo> = a.project.as_ref().and_then(|p| p.vcs.as_ref());
    assert!(vcs.is_some());
}

#[test]
fn toast_shows_and_expires() {
    let mut a = app_in("s-1");
    a.handle_event(
        Event::TuiToastShow {
            properties: TuiToastProps {
                title: None,
                message: Some("done".to_string()),
                variant: Some("warning".to_string()),
            },
        },
        1000,
    );
    let t = a.toast.as_ref().unwrap();
    assert_eq!(t.message, "done");
    assert_eq!(t.level, ToastLevel::Warning);
    a.tick_toast(5999);
    assert!(a.toast.is_some());
    a.tick_toast(6000);
    assert!(a.toast.is_none());
    assert!(a.toast_time.is_none());
}

#[test]
fn toast_variants_map_to_levels() {
    for (variant, level) in [
        (Some("success"), ToastLevel::Success),
        (Some("error"), ToastLevel::Error),
        (Some("other"), ToastLevel::Info),
        (None, ToastLevel::Info),
    ] {
        let mut a = app_in("s-1");
        a.handle_event(
            Event::TuiToastShow {
                properties: TuiToastProps { title: None, message: None, variant: variant.map(|v| v.to_string()) },
            },
            0,
        );
        assert_eq!(a.toast.as_ref().unwrap().level, level);
        assert_eq!(a.toast.as_ref().unwrap().message, "");
    }
}

#[test]
fn prompt_append_moves_cursor_to_end() {
    let mut a = app_in("s-1");
    a.input_text = "ab".to_string();
    a.input_cursor = 0;
    a.handle_event(Event::TuiPromptAppend { properties: TuiPromptAppendProps { text: Some("cé".to_string()) } }, 0);
    assert_eq!(a.input_text, "abcé");
    assert_eq!(a.input_cursor, 4);
}
