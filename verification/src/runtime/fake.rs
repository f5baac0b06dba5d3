//! A runtime that plays back a script.
use vstd::prelude::*;

use std::time::Duration;

use crate::model::numbered_text;
use crate::reducer::{AgentEvent, EventView};

use super::AgentRuntime;

verus! {

/// The whole milliseconds in a duration, as `Duration::as_millis` counts them.
pub uninterp spec fn duration_millis(duration: Duration) -> nat;

/// `Duration::from_millis` makes a duration of that many milliseconds.
pub assume_specification[ Duration::from_millis ](millis: u64) -> (duration: Duration)
    ensures
        duration_millis(duration) == millis,
;

/// An event, and how long to wait before it.
#[derive(Debug)]
pub struct ScriptedAgentEvent {
    pub delay: Duration,
    pub event: AgentEvent,
}

impl Clone for ScriptedAgentEvent {
    fn clone(&self) -> (step: ScriptedAgentEvent)
        ensures
            step@ == self@,
    {
        ScriptedAgentEvent { delay: self.delay, event: self.event.clone() }
    }
}

/// What a step of a script holds: the wait in milliseconds, and the event.
#[verifier::ext_equal]
pub struct StepView {
    pub delay: nat,
    pub event: EventView,
}

impl View for ScriptedAgentEvent {
    type V = StepView;

    open spec fn view(&self) -> StepView {
        StepView { delay: duration_millis(self.delay), event: self.event@ }
    }
}

/// What the steps of a script hold.
pub open spec fn script_view(script: Seq<ScriptedAgentEvent>) -> Seq<StepView> {
    script.map_values(|step: ScriptedAgentEvent| step@)
}

/// A runtime that needs no agent.
#[derive(Debug)]
pub struct FakeAgentRuntime {
    pub next_turn: usize,
}

impl Default for FakeAgentRuntime {
    fn default() -> (runtime: FakeAgentRuntime)
        ensures
            runtime.next_turn == 0,
    {
        FakeAgentRuntime { next_turn: 0 }
    }
}

/// The script of the turn with a number.
pub open spec fn scripted(turn: nat, project_path: Seq<char>, prompt: Seq<char>) -> Seq<StepView> {
    let turn_id = crate::model::numbered("fake-turn"@, turn);
    let assistant = crate::model::numbered("assistant"@, turn);
    let plan = crate::model::numbered("plan"@, turn);
    let command = crate::model::numbered("command"@, turn);
    let diff = crate::model::numbered("diff"@, turn);
    let approval = crate::model::numbered("approval"@, turn);
    let reasoning = crate::model::numbered("reasoning"@, turn);
    seq![
        StepView { delay: 0, event: EventView::RuntimeReady { cwd: project_path } },
        StepView {
            delay: 0,
            event: EventView::ThreadStarted { id: "fake-thread"@, title: "GPUI desktop spike"@ },
        },
        StepView { delay: 0, event: EventView::UserMessageSubmitted { prompt } },
        StepView { delay: 80, event: EventView::TurnStarted { id: turn_id } },
        StepView {
            delay: 140,
            event: EventView::PlanDelta {
                item_id: plan,
                delta: "1. Create the separate macOS-first GPUI repo.\n"@,
            },
        },
        StepView {
            delay: 120,
            event: EventView::PlanDelta {
                item_id: plan,
                delta: "2. Stream fake agent events through an app-owned reducer.\n3. Keep the transcript virtualized for large sessions."@,
            },
        },
        StepView {
            delay: 160,
            event: EventView::ReasoningDelta {
                item_id: reasoning,
                delta: "Keeping this repo separate lets Codex and GPUI clones remain read-only references."@,
            },
        },
        StepView {
            delay: 180,
            event: EventView::AgentMessageDelta {
                item_id: assistant,
                delta: "This is now a standalone desktop-app repository. "@,
            },
        },
        StepView {
            delay: 140,
            event: EventView::AgentMessageDelta {
                item_id: assistant,
                delta: "The UI starts with a dense daily-driver shape: threads left, transcript center, context and approvals right. "@,
            },
        },
        StepView {
            delay: 140,
            event: EventView::AgentMessageDelta {
                item_id: assistant,
                delta: "The selected project is `"@ + project_path
                    + "`. The next backend should spawn or connect to Codex app-server without modifying the Codex checkout."@,
            },
        },
        StepView {
            delay: 180,
            event: EventView::CommandStarted {
                item_id: command,
                command: "cargo test"@,
                cwd: project_path,
            },
        },
        StepView {
            delay: 120,
            event: EventView::CommandOutputDelta {
                item_id: command,
                delta: "running reducer tests\n"@,
            },
        },
        StepView {
            delay: 100,
            event: EventView::CommandOutputDelta {
                item_id: command,
                delta: "test result: ok. state transitions are deterministic\n"@,
            },
        },
        StepView {
            delay: 80,
            event: EventView::CommandCompleted { item_id: command, exit_code: 0 },
        },
        StepView {
            delay: 160,
            event: EventView::DiffUpdated {
                item_id: diff,
                path: "src/ui/root.rs"@,
                summary: "+ root window\n+ virtualized transcript\n+ inline tool output"@,
            },
        },
        StepView {
            delay: 180,
            event: EventView::ApprovalRequested {
                id: approval,
                title: "Run local workspace check"@,
                detail: "Fake approval showing where command and file-change requests will land."@,
                action: "Approve once"@,
            },
        },
        StepView {
            delay: 600,
            event: EventView::ApprovalResolved { id: approval, approved: true },
        },
        StepView { delay: 140, event: EventView::TurnCompleted { id: turn_id } },
    ]
}

/// A step of a script.
pub fn event(delay_ms: u64, agent_event: AgentEvent) -> (step: ScriptedAgentEvent)
    ensures
        step@ == (StepView { delay: delay_ms as nat, event: agent_event@ }),
{
    ScriptedAgentEvent { delay: Duration::from_millis(delay_ms), event: agent_event }
}

impl FakeAgentRuntime {
    /// Takes the next number and writes the script of that turn.
    pub fn scripted_turn(&mut self, project_path: &str, prompt: String) -> (script: Vec<
        ScriptedAgentEvent,
    >)
        requires
            old(self).next_turn < usize::MAX,
        ensures
            final(self).next_turn == old(self).next_turn + 1,
            script_view(script@) == scripted(
                (old(self).next_turn + 1) as nat,
                project_path@,
                prompt@,
            ),
    {
        self.next_turn += 1;
        let turn = self.next_turn as u64;
        let turn_id = numbered_text("fake-turn", turn);
        let assistant_item_id = numbered_text("assistant", turn);
        let plan_item_id = numbered_text("plan", turn);
        let command_item_id = numbered_text("command", turn);
        let diff_item_id = numbered_text("diff", turn);
        let approval_id = numbered_text("approval", turn);
        let cwd = project_path.to_string();
        let selected = "The selected project is `".to_string().concat(cwd.as_str()).concat(
            "`. The next backend should spawn or connect to Codex app-server without modifying the Codex checkout.",
        );

        let script =
            vec![
            event(0, AgentEvent::RuntimeReady { cwd: cwd.clone() }),
            event(
                0,
                AgentEvent::ThreadStarted {
                    id: "fake-thread".to_string(),
                    title: "GPUI desktop spike".to_string(),
                },
            ),
            event(0, AgentEvent::UserMessageSubmitted { prompt }),
            event(80, AgentEvent::TurnStarted { id: turn_id.clone() }),
            event(
                140,
                AgentEvent::PlanDelta {
                    item_id: plan_item_id.clone(),
                    delta: "1. Create the separate macOS-first GPUI repo.\n".to_string(),
                },
            ),
            event(
                120,
                AgentEvent::PlanDelta {
                    item_id: plan_item_id,
                    delta: "2. Stream fake agent events through an app-owned reducer.\n3. Keep the transcript virtualized for large sessions.".to_string(),
                },
            ),
            event(
                160,
                AgentEvent::ReasoningDelta {
                    item_id: numbered_text("reasoning", turn),
                    delta: "Keeping this repo separate lets Codex and GPUI clones remain read-only references.".to_string(),
                },
            ),
            event(
                180,
                AgentEvent::AgentMessageDelta {
                    item_id: assistant_item_id.clone(),
                    delta: "This is now a standalone desktop-app repository. ".to_string(),
                },
            ),
            event(
                140,
                AgentEvent::AgentMessageDelta {
                    item_id: assistant_item_id.clone(),
                    delta: "The UI starts with a dense daily-driver shape: threads left, transcript center, context and approvals right. ".to_string(),
                },
            ),
            event(
                140,
                AgentEvent::AgentMessageDelta { item_id: assistant_item_id, delta: selected },
            ),
            event(
                180,
                AgentEvent::CommandStarted {
                    item_id: command_item_id.clone(),
                    command: "cargo test".to_string(),
                    cwd: cwd.clone(),
                },
            ),
            event(
                120,
                AgentEvent::CommandOutputDelta {
                    item_id: command_item_id.clone(),
                    delta: "running reducer tests\n".to_string(),
                },
            ),
            event(
                100,
                AgentEvent::CommandOutputDelta {
                    item_id: command_item_id.clone(),
                    delta: "test result: ok. state transitions are deterministic\n".to_string(),
                },
            ),
            event(80, AgentEvent::CommandCompleted { item_id: command_item_id, exit_code: 0 }),
            event(
                160,
                AgentEvent::DiffUpdated {
                    item_id: diff_item_id,
                    path: "src/ui/root.rs".to_string(),
                    summary: "+ root window\n+ virtualized transcript\n+ inline tool output".to_string(),
                },
            ),
            event(
                180,
                AgentEvent::ApprovalRequested {
                    id: approval_id.clone(),
                    title: "Run local workspace check".to_string(),
                    detail: "Fake approval showing where command and file-change requests will land.".to_string(),
                    action: "Approve once".to_string(),
                },
            ),
            event(600, AgentEvent::ApprovalResolved { id: approval_id, approved: true }),
            event(140, AgentEvent::TurnCompleted { id: turn_id }),
        ];
        assert(script_view(script@) =~= scripted(turn as nat, project_path@, prompt@));
        script
    }
}

impl AgentRuntime for FakeAgentRuntime {
    open spec fn can_start(&self) -> bool {
        self.next_turn < usize::MAX
    }

    fn start_turn(&mut self, project_path: &str, prompt: String) -> (script: Vec<
        ScriptedAgentEvent,
    >)
        ensures
            final(self).next_turn == old(self).next_turn + 1,
            script_view(script@) == scripted(
                (old(self).next_turn + 1) as nat,
                project_path@,
                prompt@,
            ),
    {
        self.scripted_turn(project_path, prompt)
    }

    fn interrupt(&mut self) -> (event: AgentEvent)
        ensures
            *final(self) == *old(self),
            event@ == (EventView::Disconnected { message: "Fake stream interrupted by user"@ }),
    {
        AgentEvent::Disconnected { message: "Fake stream interrupted by user".to_string() }
    }
}

}
