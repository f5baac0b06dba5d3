//! What each event leaves behind, in the words of the event and of the model before it.
use vstd::prelude::*;

use crate::model::{
    ApprovalView, ItemView, ModelView, RuntimeStatus, TimelineKind, TimelineStatus,
};
use crate::reducer::EventView;

verus! {

/// Text for an identifier is put whole behind the body of the first item that has it, wherever that
/// item stands. That item is running then; nothing else of it changes, and nothing but it.
pub proof fn law_text_is_put_behind(
    model: ModelView,
    event: EventView,
    item_id: Seq<char>,
    delta: Seq<char>,
    place: int,
)
    requires
        event == (EventView::AgentMessageDelta { item_id, delta }) || event == (
        EventView::PlanDelta { item_id, delta }) || event == (EventView::ReasoningDelta {
            item_id,
            delta,
        }) || event == (EventView::CommandOutputDelta { item_id, delta }),
        0 <= place < model.timeline.len(),
        model.timeline[place].id == item_id,
        forall|i: int| 0 <= i < place ==> (#[trigger] model.timeline[i]).id != item_id,
    ensures
        ({
            let after = crate::reducer::reduced(model, event);
            let old_item = model.timeline[place];
            let new_item = after.timeline[place];
            &&& new_item.body == old_item.body + delta
            &&& new_item.status == TimelineStatus::Running
            &&& new_item.id == old_item.id && new_item.kind == old_item.kind && new_item.meta
                == old_item.meta && new_item.title == old_item.title
            &&& after.timeline.len() == model.timeline.len()
            &&& forall|i: int|
                0 <= i < model.timeline.len() && i != place ==> (#[trigger] after.timeline[i])
                    == model.timeline[i]
            &&& after == ModelView { timeline: after.timeline, ..model }
        }),
{
    crate::reducer::lemma_item_place(model.timeline, item_id, place);
}

/// Text for an identifier that no item has begins an item behind the others, whose body is that
/// text and whose kind is that of the event.
pub proof fn law_text_begins_an_item(
    model: ModelView,
    event: EventView,
    item_id: Seq<char>,
    delta: Seq<char>,
)
    requires
        event == (EventView::AgentMessageDelta { item_id, delta }) || event == (
        EventView::PlanDelta { item_id, delta }) || event == (EventView::ReasoningDelta {
            item_id,
            delta,
        }) || event == (EventView::CommandOutputDelta { item_id, delta }),
        forall|i: int|
            0 <= i < model.timeline.len() ==> (#[trigger] model.timeline[i]).id != item_id,
    ensures
        ({
            let after = crate::reducer::reduced(model, event);
            let item = after.timeline[model.timeline.len() as int];
            &&& after.timeline.len() == model.timeline.len() + 1
            &&& after.timeline.take(model.timeline.len() as int) == model.timeline
            &&& item.id == item_id && item.body == delta
            &&& item.status == TimelineStatus::Running
            &&& event is AgentMessageDelta ==> item.kind == TimelineKind::Assistant && item.title
                == "Assistant response"@ && item.meta == "streaming"@
            &&& event is PlanDelta ==> item.kind == TimelineKind::Plan && item.title == "Plan"@
                && item.meta == "updated"@
            &&& event is ReasoningDelta ==> item.kind == TimelineKind::Reasoning && item.title
                == "Reasoning summary"@ && item.meta == "streaming"@
            &&& event is CommandOutputDelta ==> item.kind == TimelineKind::Command && item.title
                == "Command"@ && item.meta == "streaming"@
            &&& after == ModelView { timeline: after.timeline, ..model }
        }),
{
    let after = crate::reducer::reduced(model, event);
    assert(!crate::reducer::has_item(model.timeline, item_id));
    assert(after.timeline.take(model.timeline.len() as int) =~= model.timeline);
}

/// A prompt, a command, a diff and an approval each put one item behind the others, even where its
/// identifier is in use, and leave those as they were.
pub proof fn law_new_items_go_last(model: ModelView, event: EventView)
    requires
        event is UserMessageSubmitted || event is CommandStarted || event is DiffUpdated
            || event is ApprovalRequested,
    ensures
        ({
            let after = crate::reducer::reduced(model, event);
            let item = after.timeline[model.timeline.len() as int];
            &&& after.timeline.len() == model.timeline.len() + 1
            &&& after.timeline.take(model.timeline.len() as int) == model.timeline
            &&& match event {
                EventView::UserMessageSubmitted { prompt } => {
                    &&& item.kind == TimelineKind::User && item.title == "Prompt"@
                    &&& item.body == prompt && item.meta == "submitted"@
                    &&& item.status == TimelineStatus::Complete
                    &&& item.id == "user"@ + "-"@ + crate::text::decimal(
                        (model.next_timeline_id + 1) as nat,
                    )
                    &&& after == ModelView {
                        timeline: after.timeline,
                        next_timeline_id: (model.next_timeline_id + 1) as usize,
                        ..model
                    }
                },
                EventView::CommandStarted { item_id, command, cwd } => {
                    &&& item.kind == TimelineKind::Command && item.title == command
                    &&& item.body.len() == 0 && item.meta == cwd && item.id == item_id
                    &&& item.status == TimelineStatus::Running
                    &&& after == ModelView { timeline: after.timeline, ..model }
                },
                EventView::DiffUpdated { item_id, path, summary } => {
                    &&& item.kind == TimelineKind::Diff && item.title == path
                    &&& item.body == summary && item.meta == "working tree"@ && item.id == item_id
                    &&& item.status == TimelineStatus::Complete
                    &&& after == ModelView { timeline: after.timeline, ..model }
                },
                EventView::ApprovalRequested { id, title, detail, action } => {
                    &&& item.kind == TimelineKind::System && item.title == "Approval requested"@
                    &&& item.body == title && item.meta == "pending"@ && item.id == id
                    &&& item.status == TimelineStatus::Pending
                    &&& after.pending_approvals.len() == model.pending_approvals.len() + 1
                    &&& after.pending_approvals.take(model.pending_approvals.len() as int)
                        == model.pending_approvals
                    &&& after.pending_approvals[model.pending_approvals.len() as int].id == id
                    &&& after.pending_approvals[model.pending_approvals.len() as int].title
                        == title
                    &&& after.pending_approvals[model.pending_approvals.len() as int].detail
                        == detail
                    &&& after.pending_approvals[model.pending_approvals.len() as int].action
                        == action
                    &&& after == ModelView {
                        timeline: after.timeline,
                        pending_approvals: after.pending_approvals,
                        runtime_status: RuntimeStatus::WaitingForApproval,
                        status_message: "Approval pending"@,
                        ..model
                    }
                },
                _ => true,
            }
        }),
{
    let after = crate::reducer::reduced(model, event);
    assert(after.timeline.take(model.timeline.len() as int) =~= model.timeline);
    assert(event is ApprovalRequested ==> after.pending_approvals.take(
        model.pending_approvals.len() as int,
    ) =~= model.pending_approvals);
}

/// The end of a command, and the answer to an approval, complete the first item with their
/// identifier, wherever it stands, and mark it with the exit code or the answer. Its text stays,
/// and so do all other items.
pub proof fn law_items_are_completed(
    model: ModelView,
    event: EventView,
    id: Seq<char>,
    place: int,
)
    requires
        match event {
            EventView::CommandCompleted { item_id, .. } => item_id == id,
            EventView::ApprovalResolved { id: approval, .. } => approval == id,
            _ => false,
        },
        0 <= place < model.timeline.len(),
        model.timeline[place].id == id,
        forall|i: int| 0 <= i < place ==> (#[trigger] model.timeline[i]).id != id,
    ensures
        ({
            let after = crate::reducer::reduced(model, event);
            let old_item = model.timeline[place];
            let new_item = after.timeline[place];
            &&& new_item.status == TimelineStatus::Complete
            &&& event matches EventView::CommandCompleted { exit_code, .. } ==> new_item.meta
                == "exit code "@ + crate::text::integer(exit_code as int)
            &&& event matches EventView::ApprovalResolved { approved, .. } ==> new_item.meta
                == if approved {
                "approved"@
            } else {
                "denied"@
            }
            &&& new_item.body == old_item.body && new_item.id == old_item.id && new_item.kind
                == old_item.kind && new_item.title == old_item.title
            &&& after.timeline.len() == model.timeline.len()
            &&& forall|i: int|
                0 <= i < model.timeline.len() && i != place ==> (#[trigger] after.timeline[i])
                    == model.timeline[i]
        }),
{
    crate::reducer::lemma_item_place(model.timeline, id, place);
}

/// The end of a command that no item belongs to changes nothing, and the answer to an approval that
/// no item belongs to changes no item.
pub proof fn law_unknown_items_stay_unknown(model: ModelView, event: EventView, id: Seq<char>)
    requires
        match event {
            EventView::CommandCompleted { item_id, .. } => item_id == id,
            EventView::ApprovalResolved { id: approval, .. } => approval == id,
            _ => false,
        },
        forall|i: int| 0 <= i < model.timeline.len() ==> (#[trigger] model.timeline[i]).id != id,
    ensures
        crate::reducer::reduced(model, event).timeline == model.timeline,
        event is CommandCompleted ==> crate::reducer::reduced(model, event) == model,
{
    assert(!crate::reducer::has_item(model.timeline, id));
}

/// The end of a command changes nothing but the timeline; the answer to an approval besides the
/// timeline and the pending approvals only the status, which is running.
pub proof fn law_completion_leaves_the_rest(model: ModelView, event: EventView)
    requires
        event is CommandCompleted || event is ApprovalResolved,
    ensures
        ({
            let after = crate::reducer::reduced(model, event);
            &&& event is CommandCompleted ==> after == ModelView {
                timeline: after.timeline,
                ..model
            }
            &&& event is ApprovalResolved ==> after == ModelView {
                timeline: after.timeline,
                pending_approvals: after.pending_approvals,
                runtime_status: RuntimeStatus::Running,
                status_message: "Approval resolved"@,
                ..model
            }
        }),
{
}

/// Answering an approval goes through the pending ones one by one and in order: the list that is
/// left of two lists put together is what is left of each, put together; of a single approval
/// nothing is left if it has the identifier, and the approval itself if it has another.
pub proof fn law_answers_leave_others_in_order(
    model: ModelView,
    id: Seq<char>,
    approved: bool,
    front: Seq<ApprovalView>,
    back: Seq<ApprovalView>,
    single: ApprovalView,
)
    requires
        model.pending_approvals == front + back,
    ensures
        ({
            let event = EventView::ApprovalResolved { id, approved };
            let front_model = ModelView { pending_approvals: front, ..model };
            let back_model = ModelView { pending_approvals: back, ..model };
            let none = ModelView { pending_approvals: Seq::empty(), ..model };
            let one = ModelView { pending_approvals: seq![single], ..model };
            &&& crate::reducer::reduced(model, event).pending_approvals
                == crate::reducer::reduced(front_model, event).pending_approvals
                + crate::reducer::reduced(back_model, event).pending_approvals
            &&& crate::reducer::reduced(none, event).pending_approvals.len() == 0
            &&& single.id == id ==> crate::reducer::reduced(
                one,
                event,
            ).pending_approvals.len() == 0
            &&& single.id != id ==> crate::reducer::reduced(one, event).pending_approvals
                == seq![single]
        }),
{
    let kept = |approval: ApprovalView| approval.id != id;
    Seq::filter_distributes_over_add(front, back, kept);
    reveal(Seq::filter);
    let nothing = Seq::<ApprovalView>::empty();
    assert(crate::reducer::without_approval(nothing, id) =~= nothing);
    crate::reducer::lemma_without_push(nothing, single, id);
    assert(nothing.push(single) =~= seq![single]);
}

/// A thread that is started while it is listed keeps its place, its identifier and its directory,
/// and gets its new title and the status of the runtime. It is the active one; all others stay.
pub proof fn law_listed_thread_is_named_anew(
    model: ModelView,
    id: Seq<char>,
    title: Seq<char>,
    place: int,
)
    requires
        0 <= place < model.threads.len(),
        model.threads[place].id == id,
        forall|i: int| 0 <= i < place ==> (#[trigger] model.threads[i]).id != id,
    ensures
        ({
            let after = crate::reducer::reduced(model, EventView::ThreadStarted { id, title });
            let thread = after.threads[place];
            &&& thread.title == title && thread.id == id
            &&& thread.subtitle == model.threads[place].subtitle
            &&& thread.status == status_words(model.runtime_status)
            &&& after.threads.len() == model.threads.len()
            &&& forall|i: int|
                0 <= i < model.threads.len() && i != place ==> (#[trigger] after.threads[i])
                    == model.threads[i]
            &&& after == ModelView { threads: after.threads, active_thread: Some(id), ..model }
        }),
{
    crate::reducer::lemma_thread_place(model.threads, id, place);
}

/// The words for a state of the runtime.
pub open spec fn status_words(status: RuntimeStatus) -> Seq<char> {
    match status {
        RuntimeStatus::Disconnected => "Disconnected"@,
        RuntimeStatus::Idle => "Idle"@,
        RuntimeStatus::Running => "Running"@,
        RuntimeStatus::WaitingForApproval => "Needs approval"@,
    }
}

/// A thread that is started while it is not listed is put in front of the others, with the current
/// directory and the status of the runtime. It is the active one.
pub proof fn law_unlisted_thread_goes_first(model: ModelView, id: Seq<char>, title: Seq<char>)
    requires
        forall|i: int| 0 <= i < model.threads.len() ==> (#[trigger] model.threads[i]).id != id,
    ensures
        ({
            let after = crate::reducer::reduced(model, EventView::ThreadStarted { id, title });
            let thread = after.threads[0];
            &&& thread.title == title && thread.id == id && thread.subtitle == model.cwd
            &&& thread.status == status_words(model.runtime_status)
            &&& after.threads.len() == model.threads.len() + 1
            &&& after.threads.skip(1) == model.threads
            &&& after == ModelView { threads: after.threads, active_thread: Some(id), ..model }
        }),
{
    assert(!crate::reducer::has_thread(model.threads, id));
    let after = crate::reducer::reduced(model, EventView::ThreadStarted { id, title });
    assert(after.threads.skip(1) =~= model.threads);
}

/// A completed turn leaves the runtime and the active thread idle. Of that thread nothing else
/// changes, and no other thread does.
pub proof fn law_completed_turn_rests(model: ModelView, id: Seq<char>, place: int)
    requires
        0 <= place < model.threads.len(),
        model.active_thread == Some(model.threads[place].id),
        forall|i: int|
            0 <= i < place ==> (#[trigger] model.threads[i]).id != model.threads[place].id,
    ensures
        ({
            let after = crate::reducer::reduced(model, EventView::TurnCompleted { id });
            let thread = after.threads[place];
            &&& thread.status == "Idle"@
            &&& thread.id == model.threads[place].id && thread.title == model.threads[place].title
                && thread.subtitle == model.threads[place].subtitle
            &&& after.threads.len() == model.threads.len()
            &&& forall|i: int|
                0 <= i < model.threads.len() && i != place ==> (#[trigger] after.threads[i])
                    == model.threads[i]
        }),
{
    crate::reducer::lemma_thread_place(model.threads, model.threads[place].id, place);
}

/// A completed turn says so, and leaves all but the status and the threads; where no thread is
/// active, or the active one is not listed, the threads too.
pub proof fn law_completed_turn_leaves_the_rest(model: ModelView, id: Seq<char>)
    ensures
        ({
            let after = crate::reducer::reduced(model, EventView::TurnCompleted { id });
            &&& after == ModelView {
                threads: after.threads,
                runtime_status: RuntimeStatus::Idle,
                status_message: "Fake turn complete"@,
                turn_status: "Turn "@ + id + " complete"@,
                ..model
            }
            &&& (forall|i: int|
                0 <= i < model.threads.len() ==> Some((#[trigger] model.threads[i]).id)
                    != model.active_thread) ==> after.threads == model.threads
        }),
{
    if forall|i: int|
        0 <= i < model.threads.len() ==> Some((#[trigger] model.threads[i]).id)
            != model.active_thread {
        if let Some(active) = model.active_thread {
            assert(!crate::reducer::has_thread(model.threads, active));
        }
    }
}

/// A ready runtime is idle in its directory, a begun turn runs, a lost runtime is disconnected with
/// the words it is lost with, and skipped events are counted. Each says so and leaves the rest.
pub proof fn law_status_events_leave_the_rest(
    model: ModelView,
    text: Seq<char>,
    skipped: usize,
)
    ensures
        crate::reducer::reduced(model, EventView::RuntimeReady { cwd: text }) == (ModelView {
            cwd: text,
            runtime_status: RuntimeStatus::Idle,
            status_message: "Runtime ready"@,
            ..model
        }),
        crate::reducer::reduced(model, EventView::TurnStarted { id: text }) == (ModelView {
            runtime_status: RuntimeStatus::Running,
            status_message: "Streaming fake agent events"@,
            turn_status: "Turn "@ + text + " running"@,
            ..model
        }),
        crate::reducer::reduced(model, EventView::Disconnected { message: text }) == (ModelView {
            runtime_status: RuntimeStatus::Disconnected,
            status_message: text,
            ..model
        }),
        ({
            let after = crate::reducer::reduced(model, EventView::Lagged { skipped });
            after == ModelView {
                skipped_events: after.skipped_events,
                status_message: "Skipped "@ + crate::text::decimal(skipped as nat)
                    + " best-effort events"@,
                ..model
            }
        }),
{
}

/// A long transcript is nothing but its rows: each tells its number in its identifier and its text,
/// is complete, and is of the kind whose turn it is. No approval is pending, numbering begins anew,
/// and the runtime is idle.
pub proof fn law_long_transcript_rows(model: ModelView, count: nat, row: int)
    requires
        0 <= row < count,
    ensures
        ({
            let after = crate::reducer::seeded(model, count);
            let item = after.timeline[row];
            let number = crate::text::decimal(row as nat);
            &&& after.timeline.len() == count
            &&& item.id == "seed"@ + "-"@ + number
            &&& item.meta == "seeded"@ && item.status == TimelineStatus::Complete
            &&& row % 5 == 0 ==> item.kind == TimelineKind::User && item.title == "Prompt"@
                && item.body == "Seed prompt #"@ + number
                + ": inspect the workspace and report progress."@
            &&& row % 5 == 1 ==> item.kind == TimelineKind::Assistant && item.title
                == "Assistant response"@ && item.body == "Streaming response row #"@ + number
                + ". This compact row keeps virtualization stable."@
            &&& row % 5 == 2 ==> item.kind == TimelineKind::Command && item.title == "cargo check"@
                && item.body == "checked target row #"@ + number + "\nfinished in 0.1s"@
            &&& row % 5 == 3 ==> item.kind == TimelineKind::Plan && item.title == "Plan"@
                && item.body == "Row #"@ + number
                + ": create shell, wire fake runtime, verify."@
            &&& row % 5 == 4 ==> item.kind == TimelineKind::Diff && item.title
                == "src/ui/root.rs"@ && item.body == "+ rendered virtual row #"@ + number
                + "\n- placeholder-only layout"@
        }),
{
}

/// A long transcript forgets the approvals and the numbers, is idle, says how long it is, and has
/// its thread listed as started; all else stays.
pub proof fn law_long_transcript_leaves_the_rest(model: ModelView, count: nat)
    ensures
        ({
            let after = crate::reducer::seeded(model, count);
            let started = crate::reducer::reduced(
                ModelView { runtime_status: RuntimeStatus::Idle, ..model },
                EventView::ThreadStarted {
                    id: "seeded-thread"@,
                    title: "Long transcript perf seed"@,
                },
            );
            &&& after.timeline.len() == count
            &&& after == ModelView {
                timeline: after.timeline,
                pending_approvals: Seq::empty(),
                next_timeline_id: 0,
                runtime_status: RuntimeStatus::Idle,
                status_message: "Seeded "@ + crate::text::decimal(count) + " timeline rows"@,
                threads: started.threads,
                active_thread: Some("seeded-thread"@),
                ..model
            }
        }),
{
}

/// Text for an item of any kind is put whole behind the body of the first item with its identifier,
/// wherever it stands, and begins an item of that kind where there is none. No other item changes.
pub proof fn law_appended_text(
    items: Seq<ItemView>,
    id: Seq<char>,
    kind: TimelineKind,
    title: Seq<char>,
    meta: Seq<char>,
    delta: Seq<char>,
    place: int,
)
    requires
        0 <= place <= items.len(),
        place < items.len() ==> items[place].id == id,
        forall|i: int| 0 <= i < place ==> (#[trigger] items[i]).id != id,
    ensures
        ({
            let after = crate::reducer::with_delta(items, id, kind, title, meta, delta);
            &&& place < items.len() ==> {
                &&& after.len() == items.len()
                &&& after[place].body == items[place].body + delta
                &&& after[place].status == TimelineStatus::Running
                &&& after[place].id == id && after[place].kind == items[place].kind
                    && after[place].title == items[place].title && after[place].meta
                    == items[place].meta
            }
            &&& place == items.len() ==> {
                &&& after.len() == items.len() + 1
                &&& after[place].body == delta && after[place].id == id
                &&& after[place].status == TimelineStatus::Running
                &&& after[place].kind == kind && after[place].title == title && after[place].meta
                    == meta
            }
            &&& forall|i: int|
                0 <= i < items.len() && i != place ==> (#[trigger] after[i]) == items[i]
        }),
{
    if place < items.len() {
        crate::reducer::lemma_item_place(items, id, place);
    } else {
        assert(!crate::reducer::has_item(items, id));
    }
}

}
