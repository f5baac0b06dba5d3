use codex_gpui_desktop::codec::{from_line, to_line};
use codex_gpui_desktop::json::Json;
use codex_gpui_desktop::model::RuntimeStatus;
use codex_gpui_desktop::reducer::AgentEvent;
use codex_gpui_desktop::runtime::app_server::{read_wire_line, AppServerWireEvent};
use codex_gpui_desktop::ui::root::{
    Delivery, Outgoing, PendingRequest, ProjectPath, PromptOutcome, Reaction, RootView,
};

fn json(text: &str) -> Json {
    from_line(text).unwrap()
}

fn hear(view: &mut RootView, line: &str) -> Reaction {
    view.handle_app_server_event(read_wire_line(line.to_string()))
}

fn deliver(view: &mut RootView, message: Option<Outgoing>) -> String {
    let message = message.unwrap();
    let line = to_line(&message.message);
    view.delivered(message.delivery, Ok(()));
    line
}

fn ready() -> RootView {
    let mut view = RootView::new(Some("/p".to_string()));
    assert!(view.connect_codex());
    let hello = view.finish_connect(Ok(()));
    deliver(&mut view, hello);
    for message in hear(&mut view, "{\"id\":1,\"result\":{}}").outgoing {
        deliver(&mut view, Some(message));
    }
    hear(&mut view, "{\"id\":2,\"result\":{\"thread\":{\"id\":\"thr\"}}}");
    view
}

const ASKED: &str = "{\"id\":\"srv-1\",\"method\":\"item/commandExecution/requestApproval\",\
                     \"params\":{\"command\":\"ls\"}}";

#[test]
fn a_new_window_has_the_directory_it_was_opened_in() {
    let view = RootView::new(Some("/here".to_string()));
    assert_eq!(view.model.cwd, "/here");
    assert_eq!(view.model.status_message, "Phase 0 fake runtime ready");
    assert!(!view.connected);
    assert!(view.has_room());
    assert!(!view.is_busy());
    assert_eq!(view.scroll_to_bottom(), None);
    assert_eq!(RootView::new(None).model.cwd, "No workspace selected");
}

#[test]
fn a_blank_prompt_is_refused() {
    let mut view = RootView::new(None);
    assert!(matches!(view.start_fake_turn(" \n ".to_string()), PromptOutcome::Refused));
    assert_eq!(view.model.status_message, "Type a message before sending");
    assert_eq!(view.stream_token, 0);
}

#[test]
fn a_prompt_starts_a_script_and_a_second_one_replaces_it() {
    let mut view = RootView::new(Some("/p".to_string()));
    let (first, script) = match view.start_fake_turn("go".to_string()) {
        PromptOutcome::Scripted { token, script } => (token, script),
        other => panic!("{other:?}"),
    };
    assert_eq!(first, 1);
    let mut steps = script.into_iter();
    for _ in 0..3 {
        assert!(view.play_step(first, steps.next().unwrap().event));
    }
    assert_eq!(view.model.timeline.len(), 1);
    assert_eq!(view.scroll_to_bottom(), Some(0));
    let second = match view.start_fake_turn("again".to_string()) {
        PromptOutcome::Scripted { token, .. } => token,
        other => panic!("{other:?}"),
    };
    assert_eq!(second, 2);
    let before = view.model.clone();
    assert!(!view.play_step(first, steps.next().unwrap().event));
    assert_eq!(view.model, before);
}

#[test]
fn a_prompt_is_ignored_while_a_turn_runs() {
    let mut view = RootView::new(None);
    for status in [RuntimeStatus::Running, RuntimeStatus::WaitingForApproval] {
        view.model.runtime_status = status;
        let before = view.model.clone();
        assert!(matches!(view.start_fake_turn("go".to_string()), PromptOutcome::Ignored));
        assert_eq!(view.model, before);
    }
    view.model.runtime_status = RuntimeStatus::Disconnected;
    assert!(matches!(
        view.start_fake_turn("go".to_string()),
        PromptOutcome::Scripted { token: 1, .. }
    ));
}

#[test]
fn a_scripted_turn_can_be_broken_off() {
    let mut view = RootView::new(None);
    let token = match view.start_fake_turn("go".to_string()) {
        PromptOutcome::Scripted { token, .. } => token,
        other => panic!("{other:?}"),
    };
    view.play_step(token, AgentEvent::TurnStarted { id: "t".to_string() });
    assert!(view.interrupt_fake_turn().is_none());
    assert_eq!(view.model.runtime_status, RuntimeStatus::Idle);
    assert_eq!(view.model.status_message, "Fake stream interrupted by user");
    assert_eq!(view.model.turn_status, "Interrupted");
    assert!(view.model.pending_approvals.is_empty());
    assert!(!view.play_step(token, AgentEvent::TurnCompleted { id: "t".to_string() }));
    assert_eq!(view.model.turn_status, "Interrupted");
}

#[test]
fn a_long_transcript_ends_the_stream() {
    let mut view = RootView::new(None);
    view.start_fake_turn("go".to_string());
    view.seed_long_transcript();
    assert_eq!(view.model.timeline.len(), 10_000);
    assert!(!view.play_step(1, AgentEvent::Lagged { skipped: 1 }));
    assert_eq!(view.model.skipped_events, 0);
    assert_eq!(view.scroll_to_bottom(), Some(9_999));
}

#[test]
fn connecting_opens_a_thread() {
    let mut view = RootView::new(Some("/p".to_string()));
    assert!(view.connect_codex());
    let hello = view.finish_connect(Ok(()));
    assert_eq!(view.model.status_message, "Starting Codex app-server");
    assert!(view.connected);
    let line = deliver(&mut view, hello);
    assert!(line.starts_with("{\"id\":1,\"method\":\"initialize\""));

    let reaction = hear(&mut view, "{\"id\":1,\"result\":{}}");
    assert_eq!(view.model.status_message, "Codex app-server initialized");
    let lines: Vec<String> = reaction.outgoing.iter().map(|m| to_line(&m.message)).collect();
    assert_eq!(lines.len(), 2);
    assert_eq!(lines[0], "{\"method\":\"initialized\"}");
    assert!(lines[1].starts_with("{\"id\":2,\"method\":\"thread/start\",\"params\":{\"cwd\":\"/p\""));
    for message in reaction.outgoing {
        deliver(&mut view, Some(message));
    }

    let reaction = hear(
        &mut view,
        "{\"id\":2,\"result\":{\"thread\":{\"id\":\"thr\",\"preview\":\"My thread\"}}}",
    );
    assert!(reaction.outgoing.is_empty());
    assert_eq!(view.live_thread_id.as_deref(), Some("thr"));
    assert_eq!(view.model.active_thread.as_deref(), Some("thr"));
    assert_eq!(view.model.threads[0].title, "My thread");
    assert_eq!(view.model.status_message, "Codex app-server ready");
    assert!(view.pending_requests.is_empty());

    assert!(!view.connect_codex());
    assert_eq!(view.model.status_message, "Codex app-server is already connected");
}

#[test]
fn a_thread_without_a_name_gets_one() {
    let mut view = ready();
    view.pending_requests.insert(7, PendingRequest::ThreadStart);
    hear(&mut view, "{\"id\":7,\"result\":{\"thread\":{}}}");
    assert_eq!(view.live_thread_id.as_deref(), Some("thread"));
    assert_eq!(view.model.threads[0].title, "Codex thread");
    view.pending_requests.insert(8, PendingRequest::ThreadStart);
    hear(&mut view, "{\"id\":8,\"result\":{}}");
    assert_eq!(view.live_thread_id.as_deref(), Some("thread"));
    assert_eq!(view.model.status_message, "Codex app-server ready");
}

#[test]
fn a_failed_start_is_told() {
    let mut view = RootView::new(None);
    assert!(view.connect_codex());
    assert!(view.finish_connect(Err("not found".to_string())).is_none());
    assert!(!view.connected);
    assert_eq!(
        view.model.status_message,
        "Could not start `codex app-server`: not found"
    );
}

#[test]
fn a_prompt_waits_for_the_thread() {
    let mut view = RootView::new(None);
    view.finish_connect(Ok(()));
    assert!(matches!(view.start_fake_turn("go".to_string()), PromptOutcome::Live(None)));
    assert_eq!(
        view.model.status_message,
        "Codex is still starting; try again in a moment"
    );
    assert!(!view.is_busy());
}

#[test]
fn a_live_turn_is_started_and_interrupted() {
    let mut view = ready();
    assert!(view.interrupt_fake_turn().is_none());
    assert_eq!(view.model.status_message, "No live Codex turn to interrupt");

    let message = match view.start_fake_turn("go".to_string()) {
        PromptOutcome::Live(message) => message,
        other => panic!("{other:?}"),
    };
    assert_eq!(view.model.status_message, "Sent prompt to Codex app-server");
    assert_eq!(view.model.runtime_status, RuntimeStatus::Running);
    assert_eq!(
        deliver(&mut view, message),
        "{\"id\":3,\"method\":\"turn/start\",\"params\":{\"cwd\":\"/p\",\"input\":\
         [{\"text\":\"go\",\"type\":\"text\"}],\"threadId\":\"thr\"}}"
    );
    assert!(matches!(view.start_fake_turn("more".to_string()), PromptOutcome::Ignored));

    hear(&mut view, "{\"id\":3,\"result\":{\"turn\":{\"id\":\"turn\"}}}");
    assert_eq!(view.live_turn_id.as_deref(), Some("turn"));
    assert_eq!(view.model.status_message, "Codex turn started");

    let message = view.interrupt_fake_turn();
    assert_eq!(view.model.status_message, "Interrupt requested");
    assert_eq!(
        deliver(&mut view, message),
        "{\"id\":4,\"method\":\"turn/interrupt\",\"params\":{\"threadId\":\"thr\",\"turnId\":\"turn\"}}"
    );
    hear(&mut view, "{\"id\":4,\"result\":{}}");
    assert_eq!(view.model.status_message, "Codex interrupt accepted");
}

#[test]
fn a_turn_answer_without_a_name_forgets_the_turn() {
    let mut view = ready();
    view.live_turn_id = Some("old".to_string());
    view.pending_requests.insert(9, PendingRequest::TurnStart);
    hear(&mut view, "{\"id\":9,\"result\":{}}");
    assert_eq!(view.live_turn_id.as_deref(), Some("old"));
    view.pending_requests.insert(9, PendingRequest::TurnStart);
    hear(&mut view, "{\"id\":9,\"result\":{\"turn\":{}}}");
    assert_eq!(view.live_turn_id, None);
}

#[test]
fn notifications_change_the_model_and_scroll() {
    let mut view = ready();
    let reaction = hear(
        &mut view,
        "{\"method\":\"turn/started\",\"params\":{\"turn\":{\"id\":\"u\"}}}",
    );
    assert_eq!(reaction.scroll_to, None);
    assert_eq!(view.live_turn_id.as_deref(), Some("u"));
    let reaction = hear(
        &mut view,
        "{\"method\":\"item/agentMessage/delta\",\"params\":{\"itemId\":\"i\",\"delta\":\"hi\"}}",
    );
    assert_eq!(reaction.scroll_to, Some(0));
    assert_eq!(view.model.timeline[0].body, "hi");
    hear(&mut view, "{\"method\":\"turn/completed\",\"params\":{\"turn\":{\"id\":\"u\"}}}");
    assert_eq!(view.live_turn_id, None);
    assert_eq!(view.model.runtime_status, RuntimeStatus::Idle);
    let before = view.model.clone();
    let reaction = hear(&mut view, "{\"method\":\"item/unknown\"}");
    assert_eq!(reaction.scroll_to, None);
    assert_eq!(view.model, before);
}

#[test]
fn an_approval_is_sent_and_gone() {
    let mut view = ready();
    let reaction = hear(&mut view, ASKED);
    assert!(reaction.outgoing.is_empty());
    assert_eq!(reaction.scroll_to, Some(0));
    assert_eq!(view.model.pending_approvals.len(), 1);
    let id = view.model.pending_approvals[0].id.clone();
    assert_eq!(id, "app-server-approval-s-7372762d31");

    let message = view.resolve_approval(id.clone(), true);
    assert_eq!(view.model.pending_approvals.len(), 1);
    assert_eq!(
        deliver(&mut view, message),
        "{\"id\":\"srv-1\",\"result\":{\"decision\":\"accept\"}}"
    );
    assert!(view.model.pending_approvals.is_empty());
    assert!(view.pending_server_approvals.entries.is_empty());
    assert_eq!(view.model.status_message, "Approval sent to Codex");
    assert_eq!(view.model.timeline[0].meta, "approved");
}

#[test]
fn an_approval_that_cannot_be_sent_stays() {
    let mut view = ready();
    hear(&mut view, ASKED);
    let id = view.model.pending_approvals[0].id.clone();
    let message = view.resolve_approval(id.clone(), false).unwrap();
    assert_eq!(
        to_line(&message.message),
        "{\"id\":\"srv-1\",\"result\":{\"decision\":\"decline\"}}"
    );
    view.delivered(message.delivery, Err("closed".to_string()));
    assert_eq!(view.model.status_message, "Could not send app-server response: closed");
    assert_eq!(view.model.pending_approvals.len(), 1);
    assert_eq!(view.pending_server_approvals.entries.len(), 1);

    let message = view.resolve_approval(id, false);
    deliver(&mut view, message);
    assert_eq!(view.model.status_message, "Denial sent to Codex");
    assert_eq!(view.model.timeline[0].meta, "denied");
}

#[test]
fn an_approval_of_the_script_is_answered_at_once() {
    let mut view = RootView::new(None);
    let token = match view.start_fake_turn("go".to_string()) {
        PromptOutcome::Scripted { token, .. } => token,
        other => panic!("{other:?}"),
    };
    view.play_step(
        token,
        AgentEvent::ApprovalRequested {
            id: "approval-1".to_string(),
            title: "t".to_string(),
            detail: "d".to_string(),
            action: "a".to_string(),
        },
    );
    assert!(view.resolve_approval("approval-1".to_string(), false).is_none());
    assert!(view.model.pending_approvals.is_empty());
    assert_eq!(view.model.timeline[0].meta, "denied");
}

#[test]
fn an_unsupported_approval_cannot_be_answered() {
    let mut view = ready();
    hear(&mut view, ASKED);
    view.pending_server_approvals.entries[0].1.method = "item/other".to_string();
    let id = view.model.pending_approvals[0].id.clone();
    assert!(view.resolve_approval(id, true).is_none());
    assert_eq!(
        view.model.status_message,
        "Cannot resolve unsupported approval: item/other"
    );
    assert!(view.pending_server_approvals.entries.is_empty());
}

#[test]
fn without_a_connection_an_approval_stays() {
    let mut view = ready();
    hear(&mut view, ASKED);
    view.connected = false;
    let id = view.model.pending_approvals[0].id.clone();
    assert!(view.resolve_approval(id, true).is_none());
    assert_eq!(view.model.status_message, "Codex app-server is not connected");
    assert_eq!(view.pending_server_approvals.entries.len(), 1);
    assert_eq!(view.model.pending_approvals.len(), 1);
}

#[test]
fn other_requests_are_refused_under_their_identifier() {
    let mut view = ready();
    let reaction = hear(&mut view, "{\"id\":5,\"method\":\"item/other\"}");
    assert_eq!(reaction.outgoing.len(), 1);
    assert_eq!(
        to_line(&reaction.outgoing[0].message),
        "{\"error\":{\"code\":-32601,\"message\":\"Unsupported app-server request: item/other\"},\
         \"id\":5}"
    );
    assert_eq!(
        view.model.status_message,
        "Unsupported app-server request: item/other"
    );
    for message in reaction.outgoing {
        view.delivered(message.delivery, Err("closed".to_string()));
    }
    assert_eq!(
        view.model.status_message,
        "Unsupported app-server request: item/other"
    );
    let reaction = hear(
        &mut view,
        "{\"id\":null,\"method\":\"item/fileChange/requestApproval\"}",
    );
    assert!(to_line(&reaction.outgoing[0].message).ends_with("\"id\":null}"));
    let reaction = hear(&mut view, "{\"id\":6,\"method\":1}");
    assert!(to_line(&reaction.outgoing[0].message).contains("request: unknown"));
}

#[test]
fn an_error_answer_is_told() {
    let mut view = ready();
    view.pending_requests.insert(11, PendingRequest::TurnStart);
    hear(&mut view, "{\"id\":11,\"error\":{\"message\":\"no\",\"code\":1}}");
    assert_eq!(
        view.model.status_message,
        "App-server error: {\"code\":1,\"message\":\"no\"}"
    );
    assert!(view.pending_requests.is_empty());
}

#[test]
fn an_answer_to_nothing_is_told() {
    let mut view = ready();
    hear(&mut view, "{\"id\":99,\"result\":1}");
    assert_eq!(view.model.status_message, "Received app-server response");
    hear(&mut view, "{\"id\":\"x\",\"result\":1}");
    assert_eq!(view.model.status_message, "Received app-server response");
}

#[test]
fn bad_lines_and_failures_are_told() {
    let mut view = ready();
    hear(&mut view, "oops");
    assert_eq!(view.model.status_message, "Malformed app-server line: oops");
    assert!(view.connected);
    hear(&mut view, ASKED);
    view.handle_app_server_event(AppServerWireEvent::IoError("broken pipe".to_string()));
    assert_eq!(view.model.status_message, "App-server IO error: broken pipe");
    assert!(!view.connected);
    assert!(view.pending_server_approvals.entries.is_empty());
    assert!(matches!(
        view.start_fake_turn("go".to_string()),
        PromptOutcome::Ignored
    ));
}

#[test]
fn failed_sends_are_told_where_the_words_stay() {
    let mut view = ready();
    view.delivered(
        Delivery::Request { id: 20, pending: PendingRequest::Initialize },
        Err("e1".to_string()),
    );
    assert_eq!(view.model.status_message, "Could not send app-server request: e1");
    view.delivered(
        Delivery::Request { id: 21, pending: PendingRequest::ThreadStart },
        Err("e2".to_string()),
    );
    assert_eq!(view.model.status_message, "Could not send app-server request: e2");
    view.delivered(Delivery::Notification, Err("e3".to_string()));
    assert_eq!(
        view.model.status_message,
        "Could not send app-server notification: e3"
    );
    view.delivered(
        Delivery::Request { id: 22, pending: PendingRequest::TurnStart },
        Err("e4".to_string()),
    );
    view.delivered(Delivery::Refusal, Err("e5".to_string()));
    view.delivered(Delivery::Notification, Ok(()));
    assert_eq!(
        view.model.status_message,
        "Could not send app-server notification: e3"
    );
    assert!(view.pending_requests.is_empty());
}

#[test]
fn nothing_is_sent_without_a_connection() {
    let mut view = RootView::new(None);
    assert!(view
        .send_app_server_request(json("{\"id\":1}"), PendingRequest::TurnStart)
        .is_none());
    assert_eq!(view.model.status_message, "Codex app-server is not connected");
    view.model.status_message = String::new();
    assert!(view.send_app_server_notification(json("{}")).is_none());
    assert_eq!(view.model.status_message, "Codex app-server is not connected");
    view.connected = true;
    assert!(view
        .send_app_server_request(json("{\"id\":\"1\"}"), PendingRequest::TurnStart)
        .is_none());
    assert_eq!(
        view.model.status_message,
        "Internal error: app-server request missing id"
    );
}

#[test]
fn connecting_again_forgets_what_was_pending() {
    let mut view = ready();
    hear(&mut view, ASKED);
    view.pending_requests.insert(30, PendingRequest::TurnStart);
    view.finish_connect(Ok(()));
    assert!(view.pending_requests.is_empty());
    assert!(view.pending_server_approvals.entries.is_empty());
    assert_eq!(view.live_thread_id, None);
    assert_eq!(view.live_turn_id, None);
}

#[test]
fn a_project_is_a_directory() {
    let mut view = RootView::new(None);
    assert_eq!(
        view.set_project_path(ProjectPath::Directory("/p".to_string())),
        Some("/p".to_string())
    );
    assert_eq!(view.model.cwd, "/p");
    assert_eq!(view.model.status_message, "Project selected");
    assert_eq!(view.set_project_path(ProjectPath::NotDirectory("/f".to_string())), None);
    assert_eq!(view.model.cwd, "/p");
    assert_eq!(view.model.status_message, "Not a directory: /f");
    assert_eq!(view.set_project_path(ProjectPath::Invalid("gone".to_string())), None);
    assert_eq!(view.model.status_message, "Project path is invalid: gone");
    view.current_dir_failed("denied");
    assert_eq!(
        view.model.status_message,
        "Could not read current directory: denied"
    );
}

#[test]
fn an_approval_asked_for_twice_is_kept_once() {
    let mut view = ready();
    hear(&mut view, ASKED);
    hear(&mut view, ASKED);
    assert_eq!(view.pending_server_approvals.entries.len(), 1);
    assert_eq!(view.model.pending_approvals.len(), 2);
    let id = view.model.pending_approvals[0].id.clone();
    let message = view.resolve_approval(id, true);
    deliver(&mut view, message);
    assert!(view.model.pending_approvals.is_empty());
}

#[test]
fn no_old_stream_is_played_after_a_new_one() {
    let mut view = RootView::new(None);
    for _ in 0..3 {
        view.start_fake_turn("go".to_string());
    }
    view.interrupt_fake_turn();
    let before = view.model.clone();
    for token in 0..=3 {
        assert!(!view.play_step(token, AgentEvent::Lagged { skipped: 1 }));
    }
    assert_eq!(view.model, before);
}

#[test]
fn a_full_counter_matters_only_where_it_counts() {
    let mut view = ready();
    view.request_builder.next_id = u64::MAX;
    view.pending_requests.insert(9, PendingRequest::TurnStart);
    hear(&mut view, "{\"id\":9,\"result\":{\"turn\":{\"id\":\"u\"}}}");
    assert_eq!(view.live_turn_id.as_deref(), Some("u"));
    view.pending_requests.insert(10, PendingRequest::Initialize);
    hear(&mut view, "{\"id\":10,\"error\":1}");
    assert_eq!(view.model.status_message, "App-server error: 1");
    assert!(matches!(view.start_fake_turn(" ".to_string()), PromptOutcome::Refused));
    view.model.runtime_status = RuntimeStatus::Running;
    assert!(matches!(view.start_fake_turn("go".to_string()), PromptOutcome::Ignored));
    view.live_turn_id = None;
    assert!(view.interrupt_fake_turn().is_none());
    assert_eq!(view.request_builder.next_id, u64::MAX);
}
