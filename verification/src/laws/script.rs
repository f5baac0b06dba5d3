//! What a scripted turn makes of the model.
use vstd::prelude::*;

use crate::laws::timeline::DeltaKind;
use crate::model::{ItemView, ModelView, RuntimeStatus, TimelineKind, TimelineStatus};
use crate::reducer::EventView;
use crate::runtime::fake::StepView;

verus! {

/// The model after the first steps of a script.
pub open spec fn replayed(model: ModelView, script: Seq<StepView>, steps: nat) -> ModelView
    decreases steps,
{
    if steps == 0 {
        model
    } else {
        crate::reducer::reduced(
            replayed(model, script, (steps - 1) as nat),
            script[steps - 1].event,
        )
    }
}

/// Whether an event changes nothing but the timeline.
pub open spec fn is_quiet(event: EventView) -> bool {
    match event {
        EventView::AgentMessageDelta { .. } => true,
        EventView::PlanDelta { .. } => true,
        EventView::ReasoningDelta { .. } => true,
        EventView::CommandStarted { .. } => true,
        EventView::CommandOutputDelta { .. } => true,
        EventView::CommandCompleted { .. } => true,
        EventView::DiffUpdated { .. } => true,
        _ => false,
    }
}

/// Quiet steps change nothing but the timeline.
proof fn lemma_quiet_steps(model: ModelView, script: Seq<StepView>, from: nat, to: nat)
    requires
        from <= to <= script.len(),
        forall|k: int| from <= k < to ==> is_quiet((#[trigger] script[k]).event),
    ensures
        replayed(model, script, to) == (ModelView {
            timeline: replayed(model, script, to).timeline,
            ..replayed(model, script, from)
        }),
    decreases to,
{
    if from < to {
        lemma_quiet_steps(model, script, from, (to - 1) as nat);
        assert(is_quiet(script[to - 1].event));
    }
}

/// A scripted turn played to its end leaves the runtime idle and the turn complete, in the project
/// it was started in, with its thread active and its own approval answered.
pub proof fn law_scripted_turn_ends(
    model: ModelView,
    turn: nat,
    project_path: Seq<char>,
    prompt: Seq<char>,
)
    requires
        model.next_timeline_id < usize::MAX,
    ensures
        ({
            let script = crate::runtime::fake::scripted(turn, project_path, prompt);
            let end = replayed(model, script, script.len());
            &&& end.runtime_status == RuntimeStatus::Idle
            &&& end.turn_status == "Turn "@ + crate::model::numbered("fake-turn"@, turn)
                + " complete"@
            &&& end.status_message == "Fake turn complete"@
            &&& end.cwd == project_path
            &&& end.active_thread == Some("fake-thread"@)
            &&& end.pending_approvals == crate::reducer::without_approval(
                model.pending_approvals,
                crate::model::numbered("approval"@, turn),
            )
            &&& end.next_timeline_id == model.next_timeline_id + 1
            &&& end.skipped_events == model.skipped_events
        }),
{
    let script = crate::runtime::fake::scripted(turn, project_path, prompt);
    let id = crate::model::numbered("approval"@, turn);
    assert(script.len() == 18);
    assert forall|k: int| 4 <= k < 15 implies is_quiet((#[trigger] script[k]).event) by {}
    lemma_quiet_steps(model, script, 4, 15);
    let begun = replayed(model, script, 4);
    assert(begun.cwd == project_path && begun.active_thread == Some("fake-thread"@)
        && begun.pending_approvals == model.pending_approvals && begun.next_timeline_id
        == model.next_timeline_id + 1 && begun.skipped_events == model.skipped_events) by {
        reveal_with_fuel(replayed, 5);
    }
    let asked = replayed(model, script, 16);
    crate::reducer::lemma_without_push(
        model.pending_approvals,
        asked.pending_approvals.last(),
        id,
    );
    let answered = replayed(model, script, 17);
    assert(asked == crate::reducer::reduced(replayed(model, script, 15), script[15].event));
    assert(answered == crate::reducer::reduced(asked, script[16].event));
    assert(replayed(model, script, 18) == crate::reducer::reduced(answered, script[17].event));
}

/// The seven items that a scripted turn puts behind the timeline.
pub open spec fn turn_items(
    number: nat,
    turn: nat,
    project_path: Seq<char>,
    prompt: Seq<char>,
) -> Seq<ItemView> {
    seq![
        ItemView {
            body: prompt,
            id: crate::model::numbered("user"@, number),
            kind: TimelineKind::User,
            meta: "submitted"@,
            status: TimelineStatus::Complete,
            title: "Prompt"@,
        },
        ItemView {
            body: "1. Create the separate macOS-first GPUI repo.\n"@
                + "2. Stream fake agent events through an app-owned reducer.\n3. Keep the transcript virtualized for large sessions."@,
            id: crate::model::numbered("plan"@, turn),
            kind: TimelineKind::Plan,
            meta: "updated"@,
            status: TimelineStatus::Running,
            title: "Plan"@,
        },
        ItemView {
            body: "Keeping this repo separate lets Codex and GPUI clones remain read-only references."@,
            id: crate::model::numbered("reasoning"@, turn),
            kind: TimelineKind::Reasoning,
            meta: "streaming"@,
            status: TimelineStatus::Running,
            title: "Reasoning summary"@,
        },
        ItemView {
            body: "This is now a standalone desktop-app repository. "@
                + "The UI starts with a dense daily-driver shape: threads left, transcript center, context and approvals right. "@
                + ("The selected project is `"@ + project_path
                + "`. The next backend should spawn or connect to Codex app-server without modifying the Codex checkout."@),
            id: crate::model::numbered("assistant"@, turn),
            kind: TimelineKind::Assistant,
            meta: "streaming"@,
            status: TimelineStatus::Running,
            title: "Assistant response"@,
        },
        ItemView {
            body: "running reducer tests\n"@
                + "test result: ok. state transitions are deterministic\n"@,
            id: crate::model::numbered("command"@, turn),
            kind: TimelineKind::Command,
            meta: "exit code "@ + crate::text::integer(0),
            status: TimelineStatus::Complete,
            title: "cargo test"@,
        },
        ItemView {
            body: "+ root window\n+ virtualized transcript\n+ inline tool output"@,
            id: crate::model::numbered("diff"@, turn),
            kind: TimelineKind::Diff,
            meta: "working tree"@,
            status: TimelineStatus::Complete,
            title: "src/ui/root.rs"@,
        },
        ItemView {
            body: "Run local workspace check"@,
            id: crate::model::numbered("approval"@, turn),
            kind: TimelineKind::System,
            meta: "approved"@,
            status: TimelineStatus::Complete,
            title: "Approval requested"@,
        },
    ]
}

/// The items of a scripted turn have seven different identifiers.
proof fn lemma_turn_ids(number: nat, turn: nat, project_path: Seq<char>, prompt: Seq<char>)
    ensures
        ({
            let items = turn_items(number, turn, project_path, prompt);
            forall|i: int, j: int|
                0 <= i < j < items.len() ==> (#[trigger] items[i]).id != (#[trigger] items[j]).id
        }),
{
    reveal_strlit("user");
    reveal_strlit("plan");
    reveal_strlit("reasoning");
    reveal_strlit("assistant");
    reveal_strlit("command");
    reveal_strlit("diff");
    reveal_strlit("approval");
    let items = turn_items(number, turn, project_path, prompt);
    assert(items[0].id[0] == 'u');
    assert(items[1].id[0] == 'p');
    assert(items[2].id[0] == 'r');
    assert(items[3].id[0] == 'a' && items[3].id[1] == 's');
    assert(items[4].id[0] == 'c');
    assert(items[5].id[0] == 'd');
    assert(items[6].id[0] == 'a' && items[6].id[1] == 'p');
}

/// Identifiers of a list that no item of the timeline has are still new once the items before
/// them in the list have been put behind the timeline.
proof fn lemma_rest_new(timeline: Seq<ItemView>, items: Seq<ItemView>, k: int)
    requires
        0 <= k < items.len(),
        forall|i: int, j: int|
            0 <= i < j < items.len() ==> (#[trigger] items[i]).id != (#[trigger] items[j]).id,
        forall|i: int|
            0 <= i < items.len() ==> !crate::reducer::has_item(timeline, (#[trigger] items[i]).id),
    ensures
        !crate::reducer::has_item(timeline + items.take(k), items[k].id),
{
    let more = timeline + items.take(k);
    assert forall|i: int| 0 <= i < more.len() implies (#[trigger] more[i]).id != items[k].id by {
        if i < timeline.len() {
            assert(!crate::reducer::has_item(timeline, items[k].id));
            assert(more[i] == timeline[i]);
        } else {
            assert(more[i] == items[i - timeline.len()]);
        }
    }
}

/// The timeline with the first items of a list put behind it, and one more.
proof fn lemma_one_more(timeline: Seq<ItemView>, items: Seq<ItemView>, k: int)
    requires
        0 <= k < items.len(),
    ensures
        (timeline + items.take(k)).push(items[k]) == timeline + items.take(k + 1),
{
    assert((timeline + items.take(k)).push(items[k]) =~= timeline + items.take(k + 1));
}

/// The item that text for an identifier begins.
pub open spec fn delta_item(kind: DeltaKind, id: Seq<char>, body: Seq<char>) -> ItemView {
    let (item_kind, title, meta) = match kind {
        DeltaKind::AgentMessage => (
            TimelineKind::Assistant,
            "Assistant response"@,
            "streaming"@,
        ),
        DeltaKind::Plan => (TimelineKind::Plan, "Plan"@, "updated"@),
        DeltaKind::Reasoning => (TimelineKind::Reasoning, "Reasoning summary"@, "streaming"@),
        DeltaKind::CommandOutput => (TimelineKind::Command, "Command"@, "streaming"@),
    };
    ItemView { body, id, kind: item_kind, meta, status: TimelineStatus::Running, title }
}

/// Two steps that bring text for one item do what one step with all of it does.
proof fn lemma_two_deltas(
    model: ModelView,
    script: Seq<StepView>,
    k: nat,
    kind: DeltaKind,
    id: Seq<char>,
    a: Seq<char>,
    b: Seq<char>,
)
    requires
        script[k as int].event == crate::laws::timeline::delta_event(kind, id, a),
        script[k + 1int].event == crate::laws::timeline::delta_event(kind, id, b),
    ensures
        replayed(model, script, k + 2) == crate::reducer::reduced(
            replayed(model, script, k),
            crate::laws::timeline::delta_event(kind, id, a + b),
        ),
{
    let before = replayed(model, script, k);
    crate::laws::timeline::law_deltas_join(before, kind, id, a, b);
    assert(replayed(model, script, k + 1) == crate::reducer::reduced(
        before,
        script[k as int].event,
    ));
    assert(replayed(model, script, k + 2) == crate::reducer::reduced(
        replayed(model, script, k + 1),
        script[k + 1int].event,
    ));
}

/// Text for a new identifier begins an item.
proof fn lemma_delta_begins(model: ModelView, kind: DeltaKind, id: Seq<char>, delta: Seq<char>)
    requires
        !crate::reducer::has_item(model.timeline, id),
    ensures
        crate::reducer::reduced(
            model,
            crate::laws::timeline::delta_event(kind, id, delta),
        ).timeline == model.timeline.push(delta_item(kind, id, delta)),
{
}

/// The steps of a command with two pieces of output.
proof fn lemma_command_steps(
    model: ModelView,
    script: Seq<StepView>,
    k: nat,
    item_id: Seq<char>,
    command: Seq<char>,
    cwd: Seq<char>,
    a: Seq<char>,
    b: Seq<char>,
    exit_code: i32,
)
    requires
        script[k as int].event == (EventView::CommandStarted { item_id, command, cwd }),
        script[k + 1int].event == (EventView::CommandOutputDelta { item_id, delta: a }),
        script[k + 2int].event == (EventView::CommandOutputDelta { item_id, delta: b }),
        script[k + 3int].event == (EventView::CommandCompleted { item_id, exit_code }),
        !crate::reducer::has_item(replayed(model, script, k).timeline, item_id),
    ensures
        replayed(model, script, k + 4).timeline == replayed(model, script, k).timeline.push(
            ItemView {
                body: a + b,
                id: item_id,
                kind: TimelineKind::Command,
                meta: "exit code "@ + crate::text::integer(exit_code as int),
                status: TimelineStatus::Complete,
                title: command,
            },
        ),
{
    let before = replayed(model, script, k);
    crate::laws::timeline::law_command_runs(before, item_id, command, cwd, a + b, exit_code);
    assert(replayed(model, script, k + 1) == crate::reducer::reduced(
        before,
        script[k as int].event,
    ));
    lemma_two_deltas(model, script, k + 1, DeltaKind::CommandOutput, item_id, a, b);
    assert(replayed(model, script, k + 4) == crate::reducer::reduced(
        replayed(model, script, k + 3),
        script[k + 3int].event,
    ));
}

/// The steps of an approval that is granted.
proof fn lemma_approval_steps(
    model: ModelView,
    script: Seq<StepView>,
    k: nat,
    id: Seq<char>,
    title: Seq<char>,
    detail: Seq<char>,
    action: Seq<char>,
)
    requires
        script[k as int].event == (EventView::ApprovalRequested { id, title, detail, action }),
        script[k + 1int].event == (EventView::ApprovalResolved { id, approved: true }),
        !crate::reducer::has_item(replayed(model, script, k).timeline, id),
    ensures
        replayed(model, script, k + 2).timeline == replayed(model, script, k).timeline.push(
            ItemView {
                body: title,
                id,
                kind: TimelineKind::System,
                meta: "approved"@,
                status: TimelineStatus::Complete,
                title: "Approval requested"@,
            },
        ),
{
    let before = replayed(model, script, k);
    let asked = replayed(model, script, k + 1);
    let answered = replayed(model, script, k + 2);
    assert(asked == crate::reducer::reduced(before, script[k as int].event));
    assert(answered == crate::reducer::reduced(asked, script[k + 1int].event));
    crate::laws::timeline::lemma_pushed_item(before.timeline, asked.timeline.last());
    assert(answered.timeline =~= before.timeline.push(answered.timeline.last()));
}

/// The timeline after the steps of a script up to the end of the assistant's answer.
proof fn lemma_first_half(
    model: ModelView,
    turn: nat,
    project_path: Seq<char>,
    prompt: Seq<char>,
    items: Seq<ItemView>,
)
    requires
        model.next_timeline_id < usize::MAX,
        items == turn_items((model.next_timeline_id + 1) as nat, turn, project_path, prompt),
        forall|i: int|
            0 <= i < items.len() ==> !crate::reducer::has_item(
                model.timeline,
                (#[trigger] items[i]).id,
            ),
    ensures
        replayed(
            model,
            crate::runtime::fake::scripted(turn, project_path, prompt),
            10,
        ).timeline == model.timeline + items.take(4),
{
    let script = crate::runtime::fake::scripted(turn, project_path, prompt);
    lemma_turn_ids((model.next_timeline_id + 1) as nat, turn, project_path, prompt);
    let started = replayed(model, script, 4);
    assert(started.timeline == model.timeline + items.take(1)) by {
        reveal_with_fuel(replayed, 5);
        assert(model.timeline + items.take(0) =~= model.timeline);
        lemma_one_more(model.timeline, items, 0);
    }

    let plan_a = "1. Create the separate macOS-first GPUI repo.\n"@;
    let plan_b = "2. Stream fake agent events through an app-owned reducer.\n3. Keep the transcript virtualized for large sessions."@;
    assert(replayed(model, script, 6).timeline == model.timeline + items.take(2)) by {
        lemma_two_deltas(model, script, 4, DeltaKind::Plan, items[1].id, plan_a, plan_b);
        lemma_rest_new(model.timeline, items, 1);
        lemma_delta_begins(started, DeltaKind::Plan, items[1].id, plan_a + plan_b);
        lemma_one_more(model.timeline, items, 1);
    }

    let reasoned = replayed(model, script, 7);
    assert(reasoned.timeline == model.timeline + items.take(3)) by {
        assert(reasoned == crate::reducer::reduced(
            replayed(model, script, 6),
            script[6].event,
        ));
        lemma_rest_new(model.timeline, items, 2);
        lemma_delta_begins(
            replayed(model, script, 6),
            DeltaKind::Reasoning,
            items[2].id,
            items[2].body,
        );
        lemma_one_more(model.timeline, items, 2);
    }

    let a = "This is now a standalone desktop-app repository. "@;
    let b = "The UI starts with a dense daily-driver shape: threads left, transcript center, context and approvals right. "@;
    let c = "The selected project is `"@ + project_path
        + "`. The next backend should spawn or connect to Codex app-server without modifying the Codex checkout."@;
    assert(replayed(model, script, 10).timeline == model.timeline + items.take(4)) by {
        let id = items[3].id;
        lemma_two_deltas(model, script, 7, DeltaKind::AgentMessage, id, a, b);
        crate::laws::timeline::law_deltas_join(
            reasoned,
            DeltaKind::AgentMessage,
            id,
            a + b,
            c,
        );
        assert(replayed(model, script, 10) == crate::reducer::reduced(
            replayed(model, script, 9),
            script[9].event,
        ));
        lemma_rest_new(model.timeline, items, 3);
        lemma_delta_begins(reasoned, DeltaKind::AgentMessage, id, a + b + c);
        lemma_one_more(model.timeline, items, 3);
    }
}

/// The timeline after the steps of a script from the command on.
proof fn lemma_second_half(
    model: ModelView,
    turn: nat,
    project_path: Seq<char>,
    prompt: Seq<char>,
    items: Seq<ItemView>,
)
    requires
        items == turn_items((model.next_timeline_id + 1) as nat, turn, project_path, prompt),
        forall|i: int|
            0 <= i < items.len() ==> !crate::reducer::has_item(
                model.timeline,
                (#[trigger] items[i]).id,
            ),
        replayed(
            model,
            crate::runtime::fake::scripted(turn, project_path, prompt),
            10,
        ).timeline == model.timeline + items.take(4),
    ensures
        replayed(
            model,
            crate::runtime::fake::scripted(turn, project_path, prompt),
            18,
        ).timeline == model.timeline + items,
{
    let script = crate::runtime::fake::scripted(turn, project_path, prompt);
    lemma_turn_ids((model.next_timeline_id + 1) as nat, turn, project_path, prompt);
    assert(replayed(model, script, 14).timeline == model.timeline + items.take(5)) by {
        lemma_rest_new(model.timeline, items, 4);
        lemma_command_steps(
            model,
            script,
            10,
            items[4].id,
            "cargo test"@,
            project_path,
            "running reducer tests\n"@,
            "test result: ok. state transitions are deterministic\n"@,
            0,
        );
        lemma_one_more(model.timeline, items, 4);
    }
    assert(replayed(model, script, 15).timeline == model.timeline + items.take(6)) by {
        assert(replayed(model, script, 15) == crate::reducer::reduced(
            replayed(model, script, 14),
            script[14].event,
        ));
        lemma_one_more(model.timeline, items, 5);
    }
    assert(replayed(model, script, 17).timeline == model.timeline + items.take(7)) by {
        lemma_rest_new(model.timeline, items, 6);
        lemma_approval_steps(
            model,
            script,
            15,
            items[6].id,
            "Run local workspace check"@,
            "Fake approval showing where command and file-change requests will land."@,
            "Approve once"@,
        );
        lemma_one_more(model.timeline, items, 6);
    }
    assert(items.take(7) =~= items);
    assert(replayed(model, script, 18) == crate::reducer::reduced(
        replayed(model, script, 17),
        script[17].event,
    ));
}

/// A scripted turn played to its end puts its seven items behind the timeline, where none of
/// their identifiers is in use, and changes no other item.
pub proof fn law_scripted_turn_items(
    model: ModelView,
    turn: nat,
    project_path: Seq<char>,
    prompt: Seq<char>,
)
    requires
        model.next_timeline_id < usize::MAX,
        forall|i: int|
            0 <= i < 7 ==> !crate::reducer::has_item(
                model.timeline,
                (#[trigger] turn_items(
                    (model.next_timeline_id + 1) as nat,
                    turn,
                    project_path,
                    prompt,
                )[i]).id,
            ),
    ensures
        ({
            let script = crate::runtime::fake::scripted(turn, project_path, prompt);
            replayed(model, script, script.len()).timeline == model.timeline + turn_items(
                (model.next_timeline_id + 1) as nat,
                turn,
                project_path,
                prompt,
            )
        }),
{
    let items = turn_items((model.next_timeline_id + 1) as nat, turn, project_path, prompt);
    assert(items.len() == 7);
    lemma_first_half(model, turn, project_path, prompt, items);
    lemma_second_half(model, turn, project_path, prompt, items);
    assert(crate::runtime::fake::scripted(turn, project_path, prompt).len() == 18);
}

/// The prefixes of the identifiers that a script gives to items and approvals.
pub open spec fn is_item_prefix(prefix: Seq<char>) -> bool {
    ||| prefix == "plan"@
    ||| prefix == "reasoning"@
    ||| prefix == "assistant"@
    ||| prefix == "command"@
    ||| prefix == "diff"@
    ||| prefix == "approval"@
}

/// The identifier that an event gives an item, an approval or a turn, where it gives one.
pub open spec fn mark(event: EventView) -> Option<Seq<char>> {
    match event {
        EventView::TurnStarted { id } => Some(id),
        EventView::TurnCompleted { id } => Some(id),
        _ => crate::laws::timeline::subject(event),
    }
}

/// Whether an event of a script speaks of an item with the number of its turn, if of any.
pub open spec fn speaks_of_turn(event: EventView, turn: nat) -> bool {
    match crate::laws::timeline::subject(event) {
        Some(id) => exists|prefix: Seq<char>| #[trigger]
            crate::model::numbered(prefix, turn) == id && is_item_prefix(prefix),
        None => true,
    }
}

/// The items of a script have the number of its turn, and only its third step is a prompt.
proof fn lemma_script_subjects(turn: nat, project_path: Seq<char>, prompt: Seq<char>, k: int)
    requires
        0 <= k < 18,
    ensures
        ({
            let event = crate::runtime::fake::scripted(turn, project_path, prompt)[k].event;
            &&& speaks_of_turn(event, turn)
            &&& event is UserMessageSubmitted <==> k == 2
            &&& mark(event) matches Some(id) ==> exists|prefix: Seq<char>| #[trigger]
                crate::model::numbered(prefix, turn) == id
        }),
{
    if k < 4 {
        assert(k == 0 || k == 1 || k == 2 || k == 3);
    } else if k < 8 {
        assert(k == 4 || k == 5 || k == 6 || k == 7);
    } else if k < 13 {
        assert(k == 8 || k == 9 || k == 10 || k == 11 || k == 12);
    } else {
        assert(k == 13 || k == 14 || k == 15 || k == 16 || k == 17);
    }
}

/// Scripts of different turns share no identifier of an item, an approval or a turn, whatever their
/// projects and prompts.
pub proof fn law_scripts_share_no_identifier(
    a: nat,
    b: nat,
    first_project: Seq<char>,
    second_project: Seq<char>,
    first_prompt: Seq<char>,
    second_prompt: Seq<char>,
)
    requires
        a != b,
    ensures
        ({
            let first = crate::runtime::fake::scripted(a, first_project, first_prompt);
            let second = crate::runtime::fake::scripted(b, second_project, second_prompt);
            forall|i: int, j: int|
                0 <= i < first.len() && 0 <= j < second.len() && mark(first[i].event) is Some
                    ==> #[trigger] mark(first[i].event) != #[trigger] mark(second[j].event)
        }),
{
    let first = crate::runtime::fake::scripted(a, first_project, first_prompt);
    let second = crate::runtime::fake::scripted(b, second_project, second_prompt);
    assert(first.len() == 18 && second.len() == 18);
    assert forall|i: int, j: int|
        0 <= i < first.len() && 0 <= j < second.len() && mark(
            first[i].event,
        ) is Some implies #[trigger] mark(first[i].event) != #[trigger] mark(second[j].event) by {
        lemma_script_subjects(a, first_project, first_prompt, i);
        lemma_script_subjects(b, second_project, second_prompt, j);
        if mark(first[i].event) == mark(second[j].event) {
            let id = mark(first[i].event)->0;
            let p = choose|prefix: Seq<char>| #[trigger] crate::model::numbered(prefix, a) == id;
            let q = choose|prefix: Seq<char>| #[trigger] crate::model::numbered(prefix, b) == id;
            crate::model::lemma_numbered_injective(p, q, a, b);
        }
    }
}

/// Whether an identifier with a prefix and a number is that of a prompt, of a made-up row, or of an
/// item of a script, with a number that has been given.
pub open spec fn is_given(prefix: Seq<char>, n: nat, prompts: nat, turns: nat) -> bool {
    ||| prefix == "user"@ && n <= prompts
    ||| prefix == "seed"@
    ||| is_item_prefix(prefix) && n <= turns
}

/// Whether an identifier has been given by a prompt, a long transcript or a script so far.
pub open spec fn is_given_id(id: Seq<char>, prompts: nat, turns: nat) -> bool {
    exists|prefix: Seq<char>, n: nat| #[trigger]
        crate::model::numbered(prefix, n) == id && is_given(prefix, n, prompts, turns)
}

/// Whether every item comes from a prompt, a long transcript or the script of a turn so far.
pub open spec fn is_from_scripts(model: ModelView, turns: nat) -> bool {
    forall|i: int|
        0 <= i < model.timeline.len() ==> is_given_id(
            (#[trigger] model.timeline[i]).id,
            model.next_timeline_id as nat,
            turns,
        )
}

proof fn lemma_given_later(id: Seq<char>, prompts: nat, turns: nat, more: nat, later: nat)
    requires
        is_given_id(id, prompts, turns),
        prompts <= more,
        turns <= later,
    ensures
        is_given_id(id, more, later),
{
    let (prefix, n) = choose|prefix: Seq<char>, n: nat| #[trigger]
        crate::model::numbered(prefix, n) == id && is_given(prefix, n, prompts, turns);
    assert(is_given(prefix, n, more, later));
}

/// A fresh timeline, and a long transcript, hold nothing but made-up rows.
pub proof fn law_starts_from_scripts(model: ModelView, count: nat, turns: nat)
    ensures
        is_from_scripts(crate::model::default_model(), turns),
        is_from_scripts(crate::reducer::seeded(model, count), turns),
{
    let after = crate::reducer::seeded(model, count);
    assert forall|i: int| 0 <= i < after.timeline.len() implies is_given_id(
        (#[trigger] after.timeline[i]).id,
        0,
        turns,
    ) by {
        assert(crate::model::numbered("seed"@, i as nat) == after.timeline[i].id);
        assert(is_given("seed"@, i as nat, 0, turns));
    }
}

/// However many steps of the next script are played, the timeline holds nothing but what prompts,
/// long transcripts and scripts put there, and one prompt has been counted once it was played.
pub proof fn law_steps_stay_from_scripts(
    model: ModelView,
    turns: nat,
    turn: nat,
    project_path: Seq<char>,
    prompt: Seq<char>,
    steps: nat,
)
    requires
        is_from_scripts(model, turns),
        turns <= turn,
        model.next_timeline_id < usize::MAX,
        steps <= 18,
    ensures
        ({
            let script = crate::runtime::fake::scripted(turn, project_path, prompt);
            let after = replayed(model, script, steps);
            &&& is_from_scripts(after, turn)
            &&& after.next_timeline_id == model.next_timeline_id + (if steps >= 3 {
                1int
            } else {
                0
            })
        }),
    decreases steps,
{
    let script = crate::runtime::fake::scripted(turn, project_path, prompt);
    if steps == 0 {
        assert forall|i: int| 0 <= i < model.timeline.len() implies is_given_id(
            (#[trigger] model.timeline[i]).id,
            model.next_timeline_id as nat,
            turn,
        ) by {
            let number = model.next_timeline_id as nat;
            lemma_given_later(model.timeline[i].id, number, turns, number, turn);
        }
    } else {
        let k = steps - 1;
        law_steps_stay_from_scripts(model, turns, turn, project_path, prompt, k as nat);
        let before = replayed(model, script, k as nat);
        let event = script[k].event;
        let after = replayed(model, script, steps);
        assert(after == crate::reducer::reduced(before, event));
        lemma_script_subjects(turn, project_path, prompt, k);
        lemma_step_from_scripts(before, event, turn);
    }
}

/// One step keeps the timeline to what has been given.
proof fn lemma_step_from_scripts(before: ModelView, event: EventView, turn: nat)
    requires
        is_from_scripts(before, turn),
        before.next_timeline_id < usize::MAX || !(event is UserMessageSubmitted),
        speaks_of_turn(event, turn),
    ensures
        ({
            let after = crate::reducer::reduced(before, event);
            &&& is_from_scripts(after, turn)
            &&& after.next_timeline_id == before.next_timeline_id + (
            if event is UserMessageSubmitted {
                1int
            } else {
                0
            })
        }),
{
    let after = crate::reducer::reduced(before, event);
    let number = after.next_timeline_id as nat;
    crate::laws::timeline::law_timeline_grows(before, event);
    assert forall|i: int| 0 <= i < after.timeline.len() implies is_given_id(
        (#[trigger] after.timeline[i]).id,
        number,
        turn,
    ) by {
        if i < before.timeline.len() {
            assert(after.timeline[i].id == before.timeline[i].id);
            lemma_given_later(
                before.timeline[i].id,
                before.next_timeline_id as nat,
                turn,
                number,
                turn,
            );
        } else {
            match crate::laws::timeline::subject(event) {
                Some(id) => {
                    let prefix = choose|prefix: Seq<char>| #[trigger]
                        crate::model::numbered(prefix, turn) == id && is_item_prefix(prefix);
                    assert(is_given(prefix, turn, number, turn));
                },
                None => {
                    assert(event is UserMessageSubmitted);
                    assert(crate::model::numbered("user"@, number) == after.timeline[i].id);
                    assert(is_given("user"@, number, number, turn));
                },
            }
        }
    }
}

/// No identifier that a later turn gives has been given before.
proof fn lemma_turn_new(
    model: ModelView,
    turns: nat,
    turn: nat,
    project_path: Seq<char>,
    prompt: Seq<char>,
    k: int,
)
    requires
        is_from_scripts(model, turns),
        turns < turn,
        0 <= k < 7,
    ensures
        !crate::reducer::has_item(
            model.timeline,
            turn_items((model.next_timeline_id + 1) as nat, turn, project_path, prompt)[k].id,
        ),
{
    reveal_strlit("user");
    reveal_strlit("seed");
    reveal_strlit("plan");
    reveal_strlit("reasoning");
    reveal_strlit("assistant");
    reveal_strlit("command");
    reveal_strlit("diff");
    reveal_strlit("approval");
    assert("user"@[0] == 'u' && "seed"@[0] == 's' && "plan"@[0] == 'p' && "reasoning"@[0] == 'r'
        && "assistant"@[0] == 'a' && "command"@[0] == 'c' && "diff"@[0] == 'd' && "approval"@[0]
        == 'a');
    let prompts = model.next_timeline_id as nat;
    let id = turn_items((prompts + 1) as nat, turn, project_path, prompt)[k].id;
    let (prefix, n) = if k == 0 {
        ("user"@, (prompts + 1) as nat)
    } else if k == 1 {
        ("plan"@, turn)
    } else if k == 2 {
        ("reasoning"@, turn)
    } else if k == 3 {
        ("assistant"@, turn)
    } else if k == 4 {
        ("command"@, turn)
    } else if k == 5 {
        ("diff"@, turn)
    } else {
        ("approval"@, turn)
    };
    assert(id == crate::model::numbered(prefix, n));
    assert(!is_given(prefix, n, prompts, turns));
    assert forall|i: int| 0 <= i < model.timeline.len() implies (#[trigger] model.timeline[i]).id
        != id by {
        let old_id = model.timeline[i].id;
        assert(is_given_id(old_id, prompts, turns));
        let (p, m) = choose|p: Seq<char>, m: nat| #[trigger]
            crate::model::numbered(p, m) == old_id && is_given(p, m, prompts, turns);
        if old_id == id {
            crate::model::lemma_numbered_injective(p, prefix, m, n);
        }
    }
}

/// In a window that has seen nothing but prompts, long transcripts and scripts, played to their end
/// or broken off, every later turn puts its seven items behind the timeline and changes no other
/// item, and leaves the window such a one.
pub proof fn law_every_turn_adds_its_items(
    model: ModelView,
    turns: nat,
    turn: nat,
    project_path: Seq<char>,
    prompt: Seq<char>,
)
    requires
        is_from_scripts(model, turns),
        turns < turn,
        model.next_timeline_id < usize::MAX,
    ensures
        ({
            let script = crate::runtime::fake::scripted(turn, project_path, prompt);
            let end = replayed(model, script, script.len());
            &&& end.timeline == model.timeline + turn_items(
                (model.next_timeline_id + 1) as nat,
                turn,
                project_path,
                prompt,
            )
            &&& is_from_scripts(end, turn)
        }),
{
    assert(crate::runtime::fake::scripted(turn, project_path, prompt).len() == 18);
    assert forall|k: int| 0 <= k < 7 implies !crate::reducer::has_item(
        model.timeline,
        (#[trigger] turn_items(
            (model.next_timeline_id + 1) as nat,
            turn,
            project_path,
            prompt,
        )[k]).id,
    ) by {
        lemma_turn_new(model, turns, turn, project_path, prompt, k);
    }
    law_scripted_turn_items(model, turn, project_path, prompt);
    law_steps_stay_from_scripts(model, turns, turn, project_path, prompt, 18);
}

/// The script of a turn, step by step: it is ready in the project, shows its thread and the prompt,
/// tells its plan, its reasoning and its answer piece by piece, runs a command, shows a diff, asks
/// for an approval that it grants itself, and completes the turn it began.
pub proof fn law_scripts_tell_their_story(turn: nat, project_path: Seq<char>, prompt: Seq<char>)
    ensures
        ({
            let script = crate::runtime::fake::scripted(turn, project_path, prompt);
            let number = "-"@ + crate::text::decimal(turn);
            let turn_id = "fake-turn"@ + number;
            let assistant = "assistant"@ + number;
            let plan = "plan"@ + number;
            let command = "command"@ + number;
            let diff = "diff"@ + number;
            let approval = "approval"@ + number;
            let reasoning = "reasoning"@ + number;
            &&& script.len() == 18
            &&& script[0].event == EventView::RuntimeReady { cwd: project_path }
            &&& script[1].event == EventView::ThreadStarted { id: "fake-thread"@, title: "GPUI desktop spike"@ }
            &&& script[2].event == EventView::UserMessageSubmitted { prompt }
            &&& script[3].event == EventView::TurnStarted { id: turn_id }
            &&& script[4].event == EventView::PlanDelta {
                item_id: plan,
                delta: "1. Create the separate macOS-first GPUI repo.\n"@,
            }
            &&& script[5].event == EventView::PlanDelta {
                item_id: plan,
                delta: "2. Stream fake agent events through an app-owned reducer.\n3. Keep the transcript virtualized for large sessions."@,
            }
            &&& script[6].event == EventView::ReasoningDelta {
                item_id: reasoning,
                delta: "Keeping this repo separate lets Codex and GPUI clones remain read-only references."@,
            }
            &&& script[7].event == EventView::AgentMessageDelta {
                item_id: assistant,
                delta: "This is now a standalone desktop-app repository. "@,
            }
            &&& script[8].event == EventView::AgentMessageDelta {
                item_id: assistant,
                delta: "The UI starts with a dense daily-driver shape: threads left, transcript center, context and approvals right. "@,
            }
            &&& script[9].event == EventView::AgentMessageDelta {
                item_id: assistant,
                delta: "The selected project is `"@ + project_path
                    + "`. The next backend should spawn or connect to Codex app-server without modifying the Codex checkout."@,
            }
            &&& script[10].event == EventView::CommandStarted {
                item_id: command,
                command: "cargo test"@,
                cwd: project_path,
            }
            &&& script[11].event == EventView::CommandOutputDelta {
                item_id: command,
                delta: "running reducer tests\n"@,
            }
            &&& script[12].event == EventView::CommandOutputDelta {
                item_id: command,
                delta: "test result: ok. state transitions are deterministic\n"@,
            }
            &&& script[13].event == EventView::CommandCompleted { item_id: command, exit_code: 0 }
            &&& script[14].event == EventView::DiffUpdated {
                item_id: diff,
                path: "src/ui/root.rs"@,
                summary: "+ root window\n+ virtualized transcript\n+ inline tool output"@,
            }
            &&& script[15].event == EventView::ApprovalRequested {
                id: approval,
                title: "Run local workspace check"@,
                detail: "Fake approval showing where command and file-change requests will land."@,
                action: "Approve once"@,
            }
            &&& script[16].event == EventView::ApprovalResolved { id: approval, approved: true }
            &&& script[17].event == EventView::TurnCompleted { id: turn_id }
        }),
{
    let number = "-"@ + crate::text::decimal(turn);
    assert("fake-turn"@ + number =~= crate::model::numbered("fake-turn"@, turn));
    assert("assistant"@ + number =~= crate::model::numbered("assistant"@, turn));
    assert("plan"@ + number =~= crate::model::numbered("plan"@, turn));
    assert("command"@ + number =~= crate::model::numbered("command"@, turn));
    assert("diff"@ + number =~= crate::model::numbered("diff"@, turn));
    assert("approval"@ + number =~= crate::model::numbered("approval"@, turn));
    assert("reasoning"@ + number =~= crate::model::numbered("reasoning"@, turn));
}

}
