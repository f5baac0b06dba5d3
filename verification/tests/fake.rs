use codex_gpui_desktop::model::{AppModel, RuntimeStatus, TimelineKind, TimelineStatus};
use codex_gpui_desktop::reducer::{reduce, AgentEvent};
use codex_gpui_desktop::runtime::fake::{event, FakeAgentRuntime};
use codex_gpui_desktop::runtime::AgentRuntime;

#[test]
fn a_script_has_its_waits_in_order() {
    let mut runtime = FakeAgentRuntime::default();
    let script = runtime.start_turn("/p", "do it".to_string());
    let waits: Vec<u128> = script.iter().map(|step| step.delay.as_millis()).collect();
    assert_eq!(
        waits,
        vec![
            0, 0, 0, 80, 140, 120, 160, 180, 140, 140, 180, 120, 100, 80, 160, 180, 600, 140
        ]
    );
    assert_eq!(script[0].event, AgentEvent::RuntimeReady { cwd: "/p".to_string() });
    assert_eq!(
        script[1].event,
        AgentEvent::ThreadStarted {
            id: "fake-thread".to_string(),
            title: "GPUI desktop spike".to_string()
        }
    );
    assert_eq!(
        script[2].event,
        AgentEvent::UserMessageSubmitted { prompt: "do it".to_string() }
    );
    assert_eq!(script[3].event, AgentEvent::TurnStarted { id: "fake-turn-1".to_string() });
    assert_eq!(
        script[9].event,
        AgentEvent::AgentMessageDelta {
            item_id: "assistant-1".to_string(),
            delta: "The selected project is `/p`. The next backend should spawn or connect to Codex \
                    app-server without modifying the Codex checkout."
                .to_string()
        }
    );
    assert_eq!(
        script[13].event,
        AgentEvent::CommandCompleted { item_id: "command-1".to_string(), exit_code: 0 }
    );
    assert_eq!(
        script[16].event,
        AgentEvent::ApprovalResolved { id: "approval-1".to_string(), approved: true }
    );
    assert_eq!(script[17].event, AgentEvent::TurnCompleted { id: "fake-turn-1".to_string() });
}

#[test]
fn turns_are_numbered_and_otherwise_alike() {
    let mut runtime = FakeAgentRuntime::default();
    runtime.start_turn("/p", "a".to_string());
    let second = runtime.scripted_turn("/p", "a".to_string());
    assert_eq!(second[3].event, AgentEvent::TurnStarted { id: "fake-turn-2".to_string() });
    let mut other = FakeAgentRuntime { next_turn: 1 };
    let again = other.scripted_turn("/p", "a".to_string());
    assert_eq!(again.len(), second.len());
    for (a, b) in again.iter().zip(second.iter()) {
        assert_eq!(a.event, b.event);
        assert_eq!(a.delay, b.delay);
    }
}

#[test]
fn a_script_played_to_its_end_leaves_an_idle_runtime() {
    let mut runtime = FakeAgentRuntime::default();
    let mut model = AppModel::default();
    for step in runtime.start_turn("/p", "do it".to_string()) {
        reduce(&mut model, step.event);
    }
    assert_eq!(model.runtime_status, RuntimeStatus::Idle);
    assert_eq!(model.turn_status, "Turn fake-turn-1 complete");
    assert_eq!(model.cwd, "/p");
    assert_eq!(model.active_thread.as_deref(), Some("fake-thread"));
    assert!(model.pending_approvals.is_empty());
    assert_eq!(model.threads[0].status, "Idle");
    let ids: Vec<&str> = model.timeline.iter().map(|item| item.id.as_str()).collect();
    assert_eq!(
        ids,
        vec![
            "user-1",
            "plan-1",
            "reasoning-1",
            "assistant-1",
            "command-1",
            "diff-1",
            "approval-1"
        ]
    );
    assert_eq!(model.timeline[4].kind, TimelineKind::Command);
    assert_eq!(
        model.timeline[4].body,
        "running reducer tests\ntest result: ok. state transitions are deterministic\n"
    );
    assert_eq!(model.timeline[4].meta, "exit code 0");
    assert_eq!(model.timeline[4].status, TimelineStatus::Complete);
    assert_eq!(model.timeline[3].status, TimelineStatus::Running);
    assert_eq!(model.timeline[6].meta, "approved");
}

#[test]
fn an_interrupt_says_so() {
    let mut runtime = FakeAgentRuntime::default();
    assert_eq!(
        runtime.interrupt(),
        AgentEvent::Disconnected { message: "Fake stream interrupted by user".to_string() }
    );
    assert_eq!(runtime.next_turn, 0);
}

#[test]
fn a_step_waits_as_long_as_it_is_told() {
    let step = event(1500, AgentEvent::Lagged { skipped: 2 });
    assert_eq!(step.delay.as_millis(), 1500);
    let copy = step.clone();
    assert_eq!(copy.delay, step.delay);
    assert_eq!(copy.event, AgentEvent::Lagged { skipped: 2 });
}

#[test]
fn a_second_turn_adds_seven_items_of_its_own() {
    let mut runtime = FakeAgentRuntime::default();
    let mut model = AppModel::default();
    for step in runtime.start_turn("/p", "one".to_string()).into_iter().take(11) {
        reduce(&mut model, step.event);
    }
    let first = model.timeline.clone();
    assert_eq!(first.len(), 5);
    for step in runtime.start_turn("/p", "two".to_string()) {
        reduce(&mut model, step.event);
    }
    assert_eq!(model.timeline.len(), 12);
    assert_eq!(model.timeline[..5], first[..]);
    let ids: Vec<&str> = model.timeline[5..].iter().map(|item| item.id.as_str()).collect();
    assert_eq!(
        ids,
        vec![
            "user-2",
            "plan-2",
            "reasoning-2",
            "assistant-2",
            "command-2",
            "diff-2",
            "approval-2"
        ]
    );
}
