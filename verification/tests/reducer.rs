use codex_gpui_desktop::model::{AppModel, RuntimeStatus, TimelineKind, TimelineStatus};
use codex_gpui_desktop::reducer::{reduce, seed_long_transcript, AgentEvent};

fn assistant(item_id: &str, delta: &str) -> AgentEvent {
    AgentEvent::AgentMessageDelta {
        item_id: item_id.to_string(),
        delta: delta.to_string(),
    }
}

fn started(id: &str, title: &str) -> AgentEvent {
    AgentEvent::ThreadStarted {
        id: id.to_string(),
        title: title.to_string(),
    }
}

fn asked(id: &str) -> AgentEvent {
    AgentEvent::ApprovalRequested {
        id: id.to_string(),
        title: "Run cargo check".to_string(),
        detail: "Needs workspace write access".to_string(),
        action: "Approve once".to_string(),
    }
}

fn resolved(id: &str, approved: bool) -> AgentEvent {
    AgentEvent::ApprovalResolved {
        id: id.to_string(),
        approved,
    }
}

#[test]
fn assistant_deltas_append_to_existing_item() {
    let mut model = AppModel::default();

    reduce(
        &mut model,
        AgentEvent::AgentMessageDelta {
            item_id: "assistant-1".to_string(),
            delta: "hello".to_string(),
        },
    );
    reduce(
        &mut model,
        AgentEvent::AgentMessageDelta {
            item_id: "assistant-1".to_string(),
            delta: " world".to_string(),
        },
    );

    assert_eq!(model.timeline.len(), 1);
    assert_eq!(model.timeline[0].body, "hello world");
    assert_eq!(model.timeline[0].status, TimelineStatus::Running);
}

#[test]
fn approval_request_is_first_class_state() {
    let mut model = AppModel::default();

    reduce(
        &mut model,
        AgentEvent::ApprovalRequested {
            id: "approval-1".to_string(),
            title: "Run cargo check".to_string(),
            detail: "Needs workspace write access".to_string(),
            action: "Approve once".to_string(),
        },
    );

    assert_eq!(model.runtime_status, RuntimeStatus::WaitingForApproval);
    assert_eq!(model.pending_approvals.len(), 1);
    assert_eq!(model.timeline[0].status, TimelineStatus::Pending);

    reduce(
        &mut model,
        AgentEvent::ApprovalResolved {
            id: "approval-1".to_string(),
            approved: true,
        },
    );

    assert!(model.pending_approvals.is_empty());
    assert_eq!(model.timeline[0].meta, "approved");
}

#[test]
fn seed_long_transcript_creates_requested_row_count() {
    let mut model = AppModel::default();

    seed_long_transcript(&mut model, 10_000);

    assert_eq!(model.timeline.len(), 10_000);
    assert_eq!(model.active_thread.as_deref(), Some("seeded-thread"));
    assert_eq!(model.runtime_status, RuntimeStatus::Idle);
}

#[test]
fn a_fresh_model_is_idle_and_empty() {
    let model = AppModel::default();

    assert_eq!(model.account_label, "Local account");
    assert_eq!(model.active_model, "gpt-5.4");
    assert_eq!(model.active_thread, None);
    assert_eq!(model.cwd, "No workspace selected");
    assert!(model.pending_approvals.is_empty());
    assert_eq!(model.runtime_status, RuntimeStatus::Idle);
    assert_eq!(model.sandbox_label, "workspace-write");
    assert_eq!(model.skipped_events, 0);
    assert_eq!(model.status_message, "Fake runtime ready");
    assert!(model.threads.is_empty());
    assert!(model.timeline.is_empty());
    assert_eq!(model.turn_status, "Idle");
}

#[test]
fn two_pieces_of_text_do_what_one_does() {
    for kind in 0..4 {
        let event = |delta: &str| {
            let item_id = "item".to_string();
            let delta = delta.to_string();
            match kind {
                0 => AgentEvent::AgentMessageDelta { item_id, delta },
                1 => AgentEvent::PlanDelta { item_id, delta },
                2 => AgentEvent::ReasoningDelta { item_id, delta },
                _ => AgentEvent::CommandOutputDelta { item_id, delta },
            }
        };
        let mut pieces = AppModel::default();
        reduce(&mut pieces, event("one "));
        reduce(&mut pieces, event("two"));
        let mut whole = AppModel::default();
        reduce(&mut whole, event("one two"));
        assert_eq!(pieces, whole);
    }
}

#[test]
fn text_begins_an_item_of_its_kind() {
    let mut model = AppModel::default();
    reduce(&mut model, assistant("a", "x"));
    reduce(
        &mut model,
        AgentEvent::PlanDelta { item_id: "p".to_string(), delta: "y".to_string() },
    );
    reduce(
        &mut model,
        AgentEvent::ReasoningDelta { item_id: "r".to_string(), delta: "z".to_string() },
    );
    reduce(
        &mut model,
        AgentEvent::CommandOutputDelta { item_id: "c".to_string(), delta: "w".to_string() },
    );

    let kinds: Vec<(TimelineKind, &str, &str, &str)> = model
        .timeline
        .iter()
        .map(|item| (item.kind, item.title.as_str(), item.meta.as_str(), item.body.as_str()))
        .collect();
    assert_eq!(
        kinds,
        vec![
            (TimelineKind::Assistant, "Assistant response", "streaming", "x"),
            (TimelineKind::Plan, "Plan", "updated", "y"),
            (TimelineKind::Reasoning, "Reasoning summary", "streaming", "z"),
            (TimelineKind::Command, "Command", "streaming", "w"),
        ]
    );
}

#[test]
fn text_goes_to_the_first_item_with_its_identifier_whatever_its_kind() {
    let mut model = AppModel::default();
    reduce(
        &mut model,
        AgentEvent::DiffUpdated {
            item_id: "x".to_string(),
            path: "a.rs".to_string(),
            summary: "+1".to_string(),
        },
    );
    reduce(
        &mut model,
        AgentEvent::DiffUpdated {
            item_id: "x".to_string(),
            path: "b.rs".to_string(),
            summary: "+2".to_string(),
        },
    );
    reduce(&mut model, assistant("x", " more"));

    assert_eq!(model.timeline.len(), 2);
    assert_eq!(model.timeline[0].body, "+1 more");
    assert_eq!(model.timeline[0].kind, TimelineKind::Diff);
    assert_eq!(model.timeline[0].meta, "working tree");
    assert_eq!(model.timeline[0].status, TimelineStatus::Running);
    assert_eq!(model.timeline[1].body, "+2");
    assert_eq!(model.timeline[1].status, TimelineStatus::Complete);
}

#[test]
fn a_command_collects_its_output_and_exit_code() {
    let mut model = AppModel::default();
    reduce(&mut model, assistant("a", "x"));
    let before = model.timeline[0].clone();
    reduce(
        &mut model,
        AgentEvent::CommandStarted {
            item_id: "c".to_string(),
            command: "cargo test".to_string(),
            cwd: "/tmp".to_string(),
        },
    );
    assert_eq!(model.timeline[1].body, "");
    assert_eq!(model.timeline[1].meta, "/tmp");
    assert_eq!(model.timeline[1].status, TimelineStatus::Running);
    reduce(
        &mut model,
        AgentEvent::CommandOutputDelta { item_id: "c".to_string(), delta: "ok\n".to_string() },
    );
    reduce(
        &mut model,
        AgentEvent::CommandCompleted { item_id: "c".to_string(), exit_code: -1 },
    );

    assert_eq!(model.timeline.len(), 2);
    assert_eq!(model.timeline[0], before);
    assert_eq!(model.timeline[1].kind, TimelineKind::Command);
    assert_eq!(model.timeline[1].title, "cargo test");
    assert_eq!(model.timeline[1].body, "ok\n");
    assert_eq!(model.timeline[1].meta, "exit code -1");
    assert_eq!(model.timeline[1].status, TimelineStatus::Complete);
}

#[test]
fn the_end_of_an_unknown_command_changes_nothing() {
    let mut model = AppModel::default();
    reduce(&mut model, assistant("a", "x"));
    let before = model.clone();
    reduce(
        &mut model,
        AgentEvent::CommandCompleted { item_id: "c".to_string(), exit_code: 0 },
    );
    assert_eq!(model, before);
}

#[test]
fn a_resolved_approval_leaves_the_others_pending() {
    let mut model = AppModel::default();
    reduce(&mut model, asked("one"));
    reduce(&mut model, asked("two"));
    reduce(&mut model, asked("one"));
    reduce(&mut model, asked("three"));
    reduce(&mut model, resolved("one", false));

    let left: Vec<&str> = model.pending_approvals.iter().map(|a| a.id.as_str()).collect();
    assert_eq!(left, vec!["two", "three"]);
    assert_eq!(model.timeline[0].meta, "denied");
    assert_eq!(model.timeline[0].status, TimelineStatus::Complete);
    assert_eq!(model.timeline[1].meta, "pending");
    assert_eq!(model.timeline[2].meta, "pending");
    assert_eq!(model.runtime_status, RuntimeStatus::Running);
    assert_eq!(model.status_message, "Approval resolved");
    assert_eq!(model.pending_approvals[0].detail, "Needs workspace write access");
    assert_eq!(model.pending_approvals[0].action, "Approve once");
}

#[test]
fn resolving_an_unknown_approval_only_sets_the_status() {
    let mut model = AppModel::default();
    reduce(&mut model, resolved("none", true));
    assert!(model.timeline.is_empty());
    assert_eq!(model.runtime_status, RuntimeStatus::Running);
    assert_eq!(model.status_message, "Approval resolved");
}

#[test]
fn only_requests_and_answers_change_the_pending_approvals() {
    let mut model = AppModel::default();
    reduce(&mut model, asked("one"));
    reduce(&mut model, AgentEvent::TurnCompleted { id: "t".to_string() });
    reduce(&mut model, AgentEvent::Disconnected { message: "gone".to_string() });
    reduce(&mut model, assistant("a", "x"));
    assert_eq!(model.pending_approvals.len(), 1);
}

#[test]
fn new_threads_go_in_front_and_known_ones_are_named_anew() {
    let mut model = AppModel::default();
    reduce(&mut model, AgentEvent::RuntimeReady { cwd: "/a".to_string() });
    reduce(&mut model, started("one", "First"));
    reduce(&mut model, AgentEvent::RuntimeReady { cwd: "/b".to_string() });
    reduce(&mut model, started("two", "Second"));
    reduce(&mut model, AgentEvent::TurnStarted { id: "t".to_string() });
    reduce(&mut model, started("one", "Again"));

    assert_eq!(model.threads.len(), 2);
    assert_eq!(model.threads[0].id, "two");
    assert_eq!(model.threads[0].subtitle, "/b");
    assert_eq!(model.threads[1].id, "one");
    assert_eq!(model.threads[1].title, "Again");
    assert_eq!(model.threads[1].subtitle, "/a");
    assert_eq!(model.threads[1].status, "Running");
    assert_eq!(model.active_thread.as_deref(), Some("one"));

    reduce(&mut model, AgentEvent::TurnCompleted { id: "t".to_string() });
    assert_eq!(model.threads[1].status, "Idle");
    assert_eq!(model.threads[0].status, "Idle");
}

#[test]
fn a_thread_started_twice_is_as_if_started_once() {
    let mut twice = AppModel::default();
    reduce(&mut twice, started("one", "First"));
    reduce(&mut twice, started("one", "Last"));
    let mut once = AppModel::default();
    reduce(&mut once, started("one", "Last"));
    assert_eq!(twice, once);
}

#[test]
fn a_turn_sets_the_status_words() {
    let mut model = AppModel::default();
    reduce(&mut model, AgentEvent::TurnStarted { id: "t-1".to_string() });
    assert_eq!(model.runtime_status, RuntimeStatus::Running);
    assert_eq!(model.status_message, "Streaming fake agent events");
    assert_eq!(model.turn_status, "Turn t-1 running");
    reduce(&mut model, AgentEvent::TurnCompleted { id: "t-1".to_string() });
    assert_eq!(model.runtime_status, RuntimeStatus::Idle);
    assert_eq!(model.status_message, "Fake turn complete");
    assert_eq!(model.turn_status, "Turn t-1 complete");
    assert!(model.threads.is_empty());
}

#[test]
fn a_ready_runtime_sets_the_directory() {
    let mut model = AppModel::default();
    reduce(&mut model, AgentEvent::Disconnected { message: "lost".to_string() });
    assert_eq!(model.runtime_status, RuntimeStatus::Disconnected);
    assert_eq!(model.status_message, "lost");
    reduce(&mut model, AgentEvent::RuntimeReady { cwd: "/work".to_string() });
    assert_eq!(model.cwd, "/work");
    assert_eq!(model.runtime_status, RuntimeStatus::Idle);
    assert_eq!(model.status_message, "Runtime ready");
}

#[test]
fn skipped_events_add_up_to_the_greatest_number() {
    let mut model = AppModel::default();
    reduce(&mut model, AgentEvent::Lagged { skipped: 3 });
    reduce(&mut model, AgentEvent::Lagged { skipped: 4 });
    assert_eq!(model.skipped_events, 7);
    assert_eq!(model.status_message, "Skipped 4 best-effort events");
    reduce(&mut model, AgentEvent::Lagged { skipped: usize::MAX });
    assert_eq!(model.skipped_events, usize::MAX);
}

#[test]
fn prompts_are_numbered() {
    let mut model = AppModel::default();
    for prompt in ["one", "two"] {
        reduce(&mut model, AgentEvent::UserMessageSubmitted { prompt: prompt.to_string() });
    }
    assert_eq!(model.timeline[0].id, "user-1");
    assert_eq!(model.timeline[1].id, "user-2");
    assert_eq!(model.timeline[1].body, "two");
    assert_eq!(model.timeline[1].kind, TimelineKind::User);
    assert_eq!(model.timeline[1].meta, "submitted");
    assert_eq!(model.timeline[1].title, "Prompt");
    assert_eq!(model.timeline[1].status, TimelineStatus::Complete);
    assert_eq!(model.next_timeline_id("x"), "x-3");
}

#[test]
fn seeded_rows_take_turns() {
    let mut model = AppModel::default();
    reduce(&mut model, asked("one"));
    seed_long_transcript(&mut model, 7);

    let rows: Vec<(&str, TimelineKind, &str, &str)> = model
        .timeline
        .iter()
        .map(|item| (item.id.as_str(), item.kind, item.title.as_str(), item.body.as_str()))
        .collect();
    assert_eq!(
        rows,
        vec![
            (
                "seed-0",
                TimelineKind::User,
                "Prompt",
                "Seed prompt #0: inspect the workspace and report progress."
            ),
            (
                "seed-1",
                TimelineKind::Assistant,
                "Assistant response",
                "Streaming response row #1. This compact row keeps virtualization stable."
            ),
            (
                "seed-2",
                TimelineKind::Command,
                "cargo check",
                "checked target row #2\nfinished in 0.1s"
            ),
            (
                "seed-3",
                TimelineKind::Plan,
                "Plan",
                "Row #3: create shell, wire fake runtime, verify."
            ),
            (
                "seed-4",
                TimelineKind::Diff,
                "src/ui/root.rs",
                "+ rendered virtual row #4\n- placeholder-only layout"
            ),
            (
                "seed-5",
                TimelineKind::User,
                "Prompt",
                "Seed prompt #5: inspect the workspace and report progress."
            ),
            (
                "seed-6",
                TimelineKind::Assistant,
                "Assistant response",
                "Streaming response row #6. This compact row keeps virtualization stable."
            ),
        ]
    );
    assert!(model.timeline.iter().all(|item| item.meta == "seeded"));
    assert!(model.pending_approvals.is_empty());
    assert_eq!(model.status_message, "Seeded 7 timeline rows");
    assert_eq!(model.threads[0].title, "Long transcript perf seed");
    assert_eq!(model.threads[0].status, "Idle");
    assert_eq!(model.next_timeline_id("x"), "x-1");
}

#[test]
fn seeding_again_leaves_no_trace_of_the_first_time() {
    let mut twice = AppModel::default();
    seed_long_transcript(&mut twice, 12);
    seed_long_transcript(&mut twice, 3);
    let mut once = AppModel::default();
    seed_long_transcript(&mut once, 3);
    assert_eq!(twice, once);
    seed_long_transcript(&mut once, 0);
    assert!(once.timeline.is_empty());
}

#[test]
fn labels_are_words() {
    assert_eq!(TimelineKind::Assistant.label(), "Assistant");
    assert_eq!(TimelineKind::Command.label(), "Command");
    assert_eq!(TimelineKind::Diff.label(), "Diff");
    assert_eq!(TimelineKind::Plan.label(), "Plan");
    assert_eq!(TimelineKind::Reasoning.label(), "Reasoning");
    assert_eq!(TimelineKind::System.label(), "System");
    assert_eq!(TimelineKind::User.label(), "User");
    assert_eq!(TimelineStatus::Complete.label(), "complete");
    assert_eq!(TimelineStatus::Pending.label(), "pending");
    assert_eq!(TimelineStatus::Running.label(), "running");
    assert_eq!(RuntimeStatus::Disconnected.label(), "Disconnected");
    assert_eq!(RuntimeStatus::Idle.label(), "Idle");
    assert_eq!(RuntimeStatus::Running.label(), "Running");
    assert_eq!(RuntimeStatus::WaitingForApproval.label(), "Needs approval");
}

#[test]
fn a_copied_event_is_the_same_event() {
    let text = |text: &str| text.to_string();
    let events = vec![
        AgentEvent::RuntimeReady { cwd: text("a") },
        AgentEvent::ThreadStarted { id: text("a"), title: text("b") },
        AgentEvent::UserMessageSubmitted { prompt: text("a") },
        AgentEvent::TurnStarted { id: text("a") },
        AgentEvent::AgentMessageDelta { item_id: text("a"), delta: text("b") },
        AgentEvent::PlanDelta { item_id: text("a"), delta: text("b") },
        AgentEvent::ReasoningDelta { item_id: text("a"), delta: text("b") },
        AgentEvent::CommandStarted { item_id: text("a"), command: text("b"), cwd: text("c") },
        AgentEvent::CommandOutputDelta { item_id: text("a"), delta: text("b") },
        AgentEvent::CommandCompleted { item_id: text("a"), exit_code: 3 },
        AgentEvent::DiffUpdated { item_id: text("a"), path: text("b"), summary: text("c") },
        asked("a"),
        resolved("a", true),
        AgentEvent::TurnCompleted { id: text("a") },
        AgentEvent::Lagged { skipped: 3 },
        AgentEvent::Disconnected { message: text("a") },
    ];
    for event in &events {
        assert_eq!(event.clone(), *event);
    }
}

#[test]
fn events_set_the_status_they_should() {
    let text = || "x".to_string();
    let cases = vec![
        (AgentEvent::RuntimeReady { cwd: text() }, RuntimeStatus::Idle),
        (AgentEvent::TurnCompleted { id: text() }, RuntimeStatus::Idle),
        (AgentEvent::TurnStarted { id: text() }, RuntimeStatus::Running),
        (resolved("x", false), RuntimeStatus::Running),
        (asked("x"), RuntimeStatus::WaitingForApproval),
        (AgentEvent::Disconnected { message: text() }, RuntimeStatus::Disconnected),
        (started("x", "y"), RuntimeStatus::Disconnected),
        (assistant("x", "y"), RuntimeStatus::Disconnected),
        (AgentEvent::Lagged { skipped: 2 }, RuntimeStatus::Disconnected),
        (AgentEvent::UserMessageSubmitted { prompt: text() }, RuntimeStatus::Disconnected),
    ];
    let mut model = AppModel::default();
    for (event, status) in cases {
        reduce(&mut model, event);
        assert_eq!(model.runtime_status, status);
    }
    assert_eq!(model.skipped_events, 2);
    assert_eq!(model.active_thread.as_deref(), Some("x"));
}

#[test]
fn an_event_changes_at_most_one_row() {
    let mut model = AppModel::default();
    reduce(&mut model, asked("a"));
    reduce(&mut model, asked("a"));
    reduce(&mut model, asked("b"));
    let before = model.timeline.clone();
    reduce(&mut model, resolved("a", true));
    let changed: Vec<usize> = (0..3).filter(|i| model.timeline[*i] != before[*i]).collect();
    assert_eq!(changed, vec![0]);
}
