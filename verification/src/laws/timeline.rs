//! What holds of the model and of the events that change it.
use vstd::prelude::*;

use crate::model::{
    ApprovalView, ItemView, ModelView, RuntimeStatus, ThreadView, TimelineKind, TimelineStatus,
};
use crate::reducer::EventView;

verus! {

/// Where there is an item with an identifier, there is a first one.
pub proof fn lemma_first_item(items: Seq<ItemView>, id: Seq<char>)
    requires
        crate::reducer::has_item(items, id),
    ensures
        crate::reducer::is_first_item(items, id, crate::reducer::item_place(items, id)),
{
    let found = choose|i: int| 0 <= i < items.len() && (#[trigger] items[i]).id == id;
    lemma_first_item_to(items, id, found);
}

proof fn lemma_first_item_to(items: Seq<ItemView>, id: Seq<char>, found: int)
    requires
        0 <= found < items.len(),
        items[found].id == id,
    ensures
        exists|place: int| crate::reducer::is_first_item(items, id, place),
    decreases found,
{
    if exists|i: int| 0 <= i < found && (#[trigger] items[i]).id == id {
        let earlier = choose|i: int| 0 <= i < found && (#[trigger] items[i]).id == id;
        lemma_first_item_to(items, id, earlier);
    } else {
        assert(crate::reducer::is_first_item(items, id, found));
    }
}

/// Where there is a thread with an identifier, there is a first one.
pub proof fn lemma_first_thread(threads: Seq<ThreadView>, id: Seq<char>)
    requires
        crate::reducer::has_thread(threads, id),
    ensures
        crate::reducer::is_first_thread(threads, id, crate::reducer::thread_place(threads, id)),
{
    let found = choose|i: int| 0 <= i < threads.len() && (#[trigger] threads[i]).id == id;
    lemma_first_thread_to(threads, id, found);
}

proof fn lemma_first_thread_to(threads: Seq<ThreadView>, id: Seq<char>, found: int)
    requires
        0 <= found < threads.len(),
        threads[found].id == id,
    ensures
        exists|place: int| crate::reducer::is_first_thread(threads, id, place),
    decreases found,
{
    if exists|i: int| 0 <= i < found && (#[trigger] threads[i]).id == id {
        let earlier = choose|i: int| 0 <= i < found && (#[trigger] threads[i]).id == id;
        lemma_first_thread_to(threads, id, earlier);
    } else {
        assert(crate::reducer::is_first_thread(threads, id, found));
    }
}

/// An item put behind others is found at the end, if none before it has its identifier.
pub proof fn lemma_pushed_item(items: Seq<ItemView>, item: ItemView)
    requires
        !crate::reducer::has_item(items, item.id),
    ensures
        crate::reducer::has_item(items.push(item), item.id),
        crate::reducer::item_place(items.push(item), item.id) == items.len(),
{
    let more = items.push(item);
    assert forall|i: int| 0 <= i < items.len() implies (#[trigger] more[i]).id != item.id by {
        assert(items[i].id != item.id);
    }
    assert(more[items.len() as int] == item);
    crate::reducer::lemma_item_place(more, item.id, items.len() as int);
}

/// Changing an item without its identifier leaves it where it is found.
proof fn lemma_updated_item(items: Seq<ItemView>, id: Seq<char>, item: ItemView)
    requires
        crate::reducer::has_item(items, id),
        item.id == id,
    ensures
        ({
            let place = crate::reducer::item_place(items, id);
            let next = items.update(place, item);
            &&& crate::reducer::is_first_item(items, id, place)
            &&& crate::reducer::has_item(next, id)
            &&& crate::reducer::item_place(next, id) == place
        }),
{
    lemma_first_item(items, id);
    let place = crate::reducer::item_place(items, id);
    let next = items.update(place, item);
    assert forall|i: int| 0 <= i < place implies (#[trigger] next[i]).id != id by {
        assert(items[i].id != id);
    }
    assert(next[place] == item);
    crate::reducer::lemma_item_place(next, id, place);
}

proof fn lemma_deltas_join(
    items: Seq<ItemView>,
    id: Seq<char>,
    kind: TimelineKind,
    title: Seq<char>,
    meta: Seq<char>,
    first: Seq<char>,
    second: Seq<char>,
)
    ensures
        crate::reducer::with_delta(
            crate::reducer::with_delta(items, id, kind, title, meta, first),
            id,
            kind,
            title,
            meta,
            second,
        ) == crate::reducer::with_delta(items, id, kind, title, meta, first + second),
{
    let once = crate::reducer::with_delta(items, id, kind, title, meta, first);
    let twice = crate::reducer::with_delta(once, id, kind, title, meta, second);
    let joined = crate::reducer::with_delta(items, id, kind, title, meta, first + second);
    if crate::reducer::has_item(items, id) {
        let place = crate::reducer::item_place(items, id);
        lemma_first_item(items, id);
        lemma_updated_item(items, id, once[place]);
        assert(items[place].body + first + second =~= items[place].body + (first + second));
        assert(twice =~= joined);
    } else {
        lemma_pushed_item(items, once.last());
        assert(twice =~= joined);
    }
}

/// The four events that bring text for an item.
pub enum DeltaKind {
    AgentMessage,
    Plan,
    Reasoning,
    CommandOutput,
}

/// The event that brings text for an item.
pub open spec fn delta_event(kind: DeltaKind, item_id: Seq<char>, delta: Seq<char>) -> EventView {
    match kind {
        DeltaKind::AgentMessage => EventView::AgentMessageDelta { item_id, delta },
        DeltaKind::Plan => EventView::PlanDelta { item_id, delta },
        DeltaKind::Reasoning => EventView::ReasoningDelta { item_id, delta },
        DeltaKind::CommandOutput => EventView::CommandOutputDelta { item_id, delta },
    }
}

/// Text that arrives in two pieces leaves the model as if it had arrived in one.
pub proof fn law_deltas_join(
    model: ModelView,
    kind: DeltaKind,
    item_id: Seq<char>,
    first: Seq<char>,
    second: Seq<char>,
)
    ensures
        crate::reducer::reduced(
            crate::reducer::reduced(model, delta_event(kind, item_id, first)),
            delta_event(kind, item_id, second),
        ) == crate::reducer::reduced(model, delta_event(kind, item_id, first + second)),
{
    let (item_kind, title, meta) = match kind {
        DeltaKind::AgentMessage => (
            TimelineKind::Assistant,
            "Assistant response"@,
            "streaming"@,
        ),
        DeltaKind::Plan => (TimelineKind::Plan, "Plan"@, "updated"@),
        DeltaKind::Reasoning => (TimelineKind::Reasoning, "Reasoning summary"@, "streaming"@),
        DeltaKind::CommandOutput => (TimelineKind::Command, "Command"@, "streaming"@),
    };
    lemma_deltas_join(model.timeline, item_id, item_kind, title, meta, first, second);
}

/// The item that an event speaks of, where it speaks of one.
pub open spec fn subject(event: EventView) -> Option<Seq<char>> {
    match event {
        EventView::AgentMessageDelta { item_id, .. } => Some(item_id),
        EventView::PlanDelta { item_id, .. } => Some(item_id),
        EventView::ReasoningDelta { item_id, .. } => Some(item_id),
        EventView::CommandStarted { item_id, .. } => Some(item_id),
        EventView::CommandOutputDelta { item_id, .. } => Some(item_id),
        EventView::CommandCompleted { item_id, .. } => Some(item_id),
        EventView::DiffUpdated { item_id, .. } => Some(item_id),
        EventView::ApprovalRequested { id, .. } => Some(id),
        EventView::ApprovalResolved { id, .. } => Some(id),
        _ => None,
    }
}

/// An event leaves every item of the timeline in its place, with its identifier, kind and title.
/// A body only ever grows at its end. No item changes but one with the identifier that the event
/// speaks of, and at most one item changes. At most one item is new: it stands behind the others,
/// and has the identifier that the event speaks of, or the next number if it is a prompt.
pub proof fn law_timeline_grows(model: ModelView, event: EventView)
    ensures
        ({
            let before = model.timeline;
            let after = crate::reducer::reduced(model, event).timeline;
            &&& before.len() <= after.len() <= before.len() + 1
            &&& forall|i: int|
                0 <= i < before.len() ==> {
                    &&& (#[trigger] after[i]).id == before[i].id
                    &&& after[i].kind == before[i].kind
                    &&& after[i].title == before[i].title
                    &&& before[i].body.is_prefix_of(after[i].body)
                    &&& after[i] == before[i] || subject(event) == Some(before[i].id)
                }
            &&& forall|i: int, j: int|
                0 <= i < j < before.len() ==> (#[trigger] after[i]) == before[i] || (
                #[trigger] after[j]) == before[j]
            &&& after.len() > before.len() ==> after.last().id == match subject(event) {
                Some(id) => id,
                None => crate::model::numbered("user"@, (model.next_timeline_id + 1) as nat),
            }
        }),
{
    let before = model.timeline;
    match subject(event) {
        Some(id) => {
            if crate::reducer::has_item(before, id) {
                lemma_first_item(before, id);
            }
        },
        None => {},
    }
}

/// A command that begins where no item has its identifier gets the output that follows and the
/// exit code, in an item of its own behind the others, which stay as they were.
pub proof fn law_command_runs(
    model: ModelView,
    item_id: Seq<char>,
    command: Seq<char>,
    cwd: Seq<char>,
    output: Seq<char>,
    exit_code: i32,
)
    requires
        !crate::reducer::has_item(model.timeline, item_id),
    ensures
        ({
            let begun = crate::reducer::reduced(
                model,
                EventView::CommandStarted { item_id, command, cwd },
            );
            let heard = crate::reducer::reduced(
                begun,
                EventView::CommandOutputDelta { item_id, delta: output },
            );
            let ended = crate::reducer::reduced(
                heard,
                EventView::CommandCompleted { item_id, exit_code },
            );
            ended == ModelView {
                timeline: model.timeline.push(
                    ItemView {
                        body: output,
                        id: item_id,
                        kind: TimelineKind::Command,
                        meta: "exit code "@ + crate::text::integer(exit_code as int),
                        status: TimelineStatus::Complete,
                        title: command,
                    },
                ),
                ..model
            }
        }),
{
    let begun = crate::reducer::reduced(
        model,
        EventView::CommandStarted { item_id, command, cwd },
    );
    lemma_pushed_item(model.timeline, begun.timeline.last());
    let heard = crate::reducer::reduced(
        begun,
        EventView::CommandOutputDelta { item_id, delta: output },
    );
    lemma_updated_item(begun.timeline, item_id, heard.timeline.last());
    let ended = crate::reducer::reduced(heard, EventView::CommandCompleted { item_id, exit_code });
    assert(Seq::<char>::empty() + output =~= output);
    assert(ended.timeline =~= model.timeline.push(
        ItemView {
            body: output,
            id: item_id,
            kind: TimelineKind::Command,
            meta: "exit code "@ + crate::text::integer(exit_code as int),
            status: TimelineStatus::Complete,
            title: command,
        },
    ));
}

/// Where no approval has an identifier, taking those with it off the list changes nothing.
proof fn lemma_without_none(approvals: Seq<ApprovalView>, id: Seq<char>)
    requires
        forall|i: int| 0 <= i < approvals.len() ==> (#[trigger] approvals[i]).id != id,
    ensures
        crate::reducer::without_approval(approvals, id) == approvals,
    decreases approvals.len(),
{
    reveal(Seq::filter);
    if approvals.len() > 0 {
        lemma_without_none(approvals.drop_last(), id);
        assert(approvals.drop_last().push(approvals.last()) =~= approvals);
    }
}

/// Once an approval is resolved, none with its identifier is pending, and every other one still
/// is.
pub proof fn law_resolved_gone(model: ModelView, id: Seq<char>, approved: bool)
    ensures
        ({
            let left = crate::reducer::reduced(
                model,
                EventView::ApprovalResolved { id, approved },
            ).pending_approvals;
            forall|approval: ApprovalView| #[trigger]
                left.contains(approval) == (model.pending_approvals.contains(approval)
                    && approval.id != id)
        }),
{
    let kept = |approval: ApprovalView| approval.id != id;
    let all = model.pending_approvals;
    let left = crate::reducer::without_approval(all, id);
    all.filter_lemma(kept);
    assert forall|approval: ApprovalView| #[trigger] left.contains(approval) implies all.contains(
        approval,
    ) && approval.id != id by {
        all.lemma_filter_contains_rev(kept, approval);
        let i = choose|i: int| 0 <= i < left.len() && left[i] == approval;
        assert(kept(left[i]));
    }
    assert forall|approval: ApprovalView|
        all.contains(approval) && approval.id != id implies #[trigger] left.contains(approval) by {
        let i = choose|i: int| 0 <= i < all.len() && all[i] == approval;
        assert(kept(all[i]));
    }
}

/// An approval that is asked for and then resolved is pending in between and not afterwards. Where
/// its identifier is new, the other approvals stay as they were, and one item has been put behind
/// the timeline, complete and marked with the answer.
pub proof fn law_approval_answered(
    model: ModelView,
    id: Seq<char>,
    title: Seq<char>,
    detail: Seq<char>,
    action: Seq<char>,
    approved: bool,
)
    requires
        !crate::reducer::has_item(model.timeline, id),
        forall|i: int|
            0 <= i < model.pending_approvals.len() ==> (#[trigger] model.pending_approvals[i]).id
                != id,
    ensures
        ({
            let asked = crate::reducer::reduced(
                model,
                EventView::ApprovalRequested { id, title, detail, action },
            );
            let answered = crate::reducer::reduced(
                asked,
                EventView::ApprovalResolved { id, approved },
            );
            &&& asked.pending_approvals.last() == ApprovalView { action, detail, id, title }
            &&& asked.runtime_status == RuntimeStatus::WaitingForApproval
            &&& answered == ModelView {
                runtime_status: RuntimeStatus::Running,
                status_message: "Approval resolved"@,
                timeline: model.timeline.push(
                    ItemView {
                        body: title,
                        id,
                        kind: TimelineKind::System,
                        meta: if approved {
                            "approved"@
                        } else {
                            "denied"@
                        },
                        status: TimelineStatus::Complete,
                        title: "Approval requested"@,
                    },
                ),
                ..model
            }
        }),
{
    let asked = crate::reducer::reduced(
        model,
        EventView::ApprovalRequested { id, title, detail, action },
    );
    let answered = crate::reducer::reduced(asked, EventView::ApprovalResolved { id, approved });
    lemma_pushed_item(model.timeline, asked.timeline.last());
    crate::reducer::lemma_without_push(
        model.pending_approvals,
        asked.pending_approvals.last(),
        id,
    );
    lemma_without_none(model.pending_approvals, id);
    assert(answered.timeline =~= model.timeline.push(answered.timeline.last()));
}

/// Only a request and an answer change which approvals are pending.
pub proof fn law_approvals_kept(model: ModelView, event: EventView)
    requires
        !(event is ApprovalRequested),
        !(event is ApprovalResolved),
    ensures
        crate::reducer::reduced(model, event).pending_approvals == model.pending_approvals,
{
}

/// No thread is listed twice, and the active one is listed.
pub open spec fn threads_in_order(model: ModelView) -> bool {
    &&& forall|i: int, j: int|
        0 <= i < j < model.threads.len() ==> (#[trigger] model.threads[i]).id != (
        #[trigger] model.threads[j]).id
    &&& match model.active_thread {
        Some(id) => crate::reducer::has_thread(model.threads, id),
        None => true,
    }
}

proof fn lemma_thread_listed(
    model: ModelView,
    id: Seq<char>,
    title: Seq<char>,
    status: Seq<char>,
    subtitle: Seq<char>,
)
    requires
        threads_in_order(model),
    ensures
        threads_in_order(
            ModelView {
                threads: crate::reducer::with_thread(model.threads, id, title, status, subtitle),
                active_thread: Some(id),
                ..model
            },
        ),
{
    let before = model.threads;
    let after = crate::reducer::with_thread(before, id, title, status, subtitle);
    if crate::reducer::has_thread(before, id) {
        lemma_first_thread(before, id);
        let place = crate::reducer::thread_place(before, id);
        assert(after[place].id == id);
    } else {
        assert(after[0].id == id);
        assert forall|i: int, j: int| 0 <= i < j < after.len() implies (#[trigger] after[i]).id != (
        #[trigger] after[j]).id by {
            assert(after[j] == before[j - 1]);
            if i > 0 {
                assert(after[i] == before[i - 1]);
            }
        }
    }
}

/// A fresh model has its threads in order, and every event and the long transcript keep them so.
pub proof fn law_threads_in_order(model: ModelView, event: EventView, count: nat)
    ensures
        threads_in_order(crate::model::default_model()),
        threads_in_order(model) ==> threads_in_order(crate::reducer::reduced(model, event)),
        threads_in_order(model) ==> threads_in_order(crate::reducer::seeded(model, count)),
{
    if threads_in_order(model) {
        match event {
            EventView::ThreadStarted { id, title } => {
                lemma_thread_listed(
                    model,
                    id,
                    title,
                    model.runtime_status.label_text(),
                    model.cwd,
                );
            },
            EventView::TurnCompleted { .. } => {
                if let Some(active) = model.active_thread {
                    lemma_first_thread(model.threads, active);
                    let place = crate::reducer::thread_place(model.threads, active);
                    let after = crate::reducer::reduced(model, event);
                    assert(after.threads[place].id == active);
                }
            },
            _ => {},
        }
        lemma_thread_listed(
            model,
            "seeded-thread"@,
            "Long transcript perf seed"@,
            RuntimeStatus::Idle.label_text(),
            model.cwd,
        );
    }
}

proof fn lemma_thread_again(
    threads: Seq<ThreadView>,
    id: Seq<char>,
    first: Seq<char>,
    second: Seq<char>,
    status: Seq<char>,
    subtitle: Seq<char>,
)
    ensures
        crate::reducer::with_thread(
            crate::reducer::with_thread(threads, id, first, status, subtitle),
            id,
            second,
            status,
            subtitle,
        ) == crate::reducer::with_thread(threads, id, second, status, subtitle),
{
    let once = crate::reducer::with_thread(threads, id, first, status, subtitle);
    let twice = crate::reducer::with_thread(once, id, second, status, subtitle);
    if crate::reducer::has_thread(threads, id) {
        lemma_first_thread(threads, id);
        let place = crate::reducer::thread_place(threads, id);
        assert forall|i: int| 0 <= i < place implies (#[trigger] once[i]).id != id by {
            assert(threads[i].id != id);
        }
        crate::reducer::lemma_thread_place(once, id, place);
    } else {
        crate::reducer::lemma_thread_place(once, id, 0);
    }
    assert(twice =~= crate::reducer::with_thread(threads, id, second, status, subtitle));
}

/// Only a started thread becomes the active one, and it is then listed under its title.
pub proof fn law_active_thread(model: ModelView, event: EventView)
    ensures
        ({
            let after = crate::reducer::reduced(model, event);
            match event {
                EventView::ThreadStarted { id, title } => {
                    &&& after.active_thread == Some(id)
                    &&& exists|i: int|
                        0 <= i < after.threads.len() && (#[trigger] after.threads[i]).id == id
                            && after.threads[i].title == title
                },
                _ => after.active_thread == model.active_thread,
            }
        }),
{
    if let EventView::ThreadStarted { id, title } = event {
        let after = crate::reducer::reduced(model, event);
        if crate::reducer::has_thread(model.threads, id) {
            lemma_first_thread(model.threads, id);
            let place = crate::reducer::thread_place(model.threads, id);
            assert(after.threads[place].id == id && after.threads[place].title == title);
        } else {
            assert(after.threads[0].id == id && after.threads[0].title == title);
        }
    }
}

/// What each event makes of the state of the runtime and of the number of skipped events, which
/// never falls.
pub proof fn law_status_after(model: ModelView, event: EventView)
    ensures
        ({
            let after = crate::reducer::reduced(model, event);
            &&& after.runtime_status == match event {
                EventView::RuntimeReady { .. } => RuntimeStatus::Idle,
                EventView::TurnCompleted { .. } => RuntimeStatus::Idle,
                EventView::TurnStarted { .. } => RuntimeStatus::Running,
                EventView::ApprovalResolved { .. } => RuntimeStatus::Running,
                EventView::ApprovalRequested { .. } => RuntimeStatus::WaitingForApproval,
                EventView::Disconnected { .. } => RuntimeStatus::Disconnected,
                _ => model.runtime_status,
            }
            &&& match event {
                EventView::Lagged { skipped } => {
                    let total = model.skipped_events + skipped;
                    after.skipped_events as int == if total > usize::MAX {
                        usize::MAX as int
                    } else {
                        total
                    }
                },
                _ => after.skipped_events == model.skipped_events,
            }
            &&& after.skipped_events >= model.skipped_events
        }),
{
}

/// A thread that is started again is named anew, and the model is as if it had been started once,
/// under its last title.
pub proof fn law_thread_named_anew(
    model: ModelView,
    id: Seq<char>,
    first: Seq<char>,
    second: Seq<char>,
)
    ensures
        crate::reducer::reduced(
            crate::reducer::reduced(model, EventView::ThreadStarted { id, title: first }),
            EventView::ThreadStarted { id, title: second },
        ) == crate::reducer::reduced(model, EventView::ThreadStarted { id, title: second }),
{
    lemma_thread_again(
        model.threads,
        id,
        first,
        second,
        model.runtime_status.label_text(),
        model.cwd,
    );
}

/// Only a prompt takes a number, and it takes the next one, so that two prompts with different
/// numbers behind them get items with different identifiers.
pub proof fn law_prompts_numbered(
    earlier: ModelView,
    later: ModelView,
    event: EventView,
    prompt: Seq<char>,
)
    requires
        earlier.next_timeline_id < usize::MAX,
        later.next_timeline_id < usize::MAX,
    ensures
        crate::reducer::reduced(earlier, event).next_timeline_id == earlier.next_timeline_id + (
        if event is UserMessageSubmitted {
            1int
        } else {
            0
        }),
        earlier.next_timeline_id != later.next_timeline_id ==> crate::reducer::reduced(
            earlier,
            EventView::UserMessageSubmitted { prompt },
        ).timeline.last().id != crate::reducer::reduced(
            later,
            EventView::UserMessageSubmitted { prompt },
        ).timeline.last().id,
{
    let a = (earlier.next_timeline_id + 1) as nat;
    let b = (later.next_timeline_id + 1) as nat;
    if crate::model::numbered("user"@, a) == crate::model::numbered("user"@, b) {
        crate::model::lemma_numbered_injective("user"@, "user"@, a, b);
    }
}

/// The long transcript has as many rows as were asked for, no two with one identifier, and its
/// kinds repeat every five rows.
pub proof fn law_seeded_rows(model: ModelView, count: nat)
    ensures
        ({
            let rows = crate::reducer::seeded(model, count).timeline;
            &&& rows.len() == count
            &&& forall|i: int, j: int|
                0 <= i < j < count ==> (#[trigger] rows[i]).id != (#[trigger] rows[j]).id
            &&& forall|i: int, j: int|
                0 <= i < j < count && j - i == 5 ==> (#[trigger] rows[i]).kind == (
                #[trigger] rows[j]).kind
        }),
{
    let rows = crate::reducer::seeded(model, count).timeline;
    assert forall|i: int, j: int| 0 <= i < j < count implies (#[trigger] rows[i]).id != (
    #[trigger] rows[j]).id by {
        if rows[i].id == rows[j].id {
            crate::model::lemma_numbered_injective("seed"@, "seed"@, i as nat, j as nat);
        }
    }
}

/// A long transcript replaces another without a trace.
pub proof fn law_seeded_again(model: ModelView, first: nat, second: nat)
    ensures
        crate::reducer::seeded(crate::reducer::seeded(model, first), second)
            == crate::reducer::seeded(model, second),
{
    lemma_thread_again(
        model.threads,
        "seeded-thread"@,
        "Long transcript perf seed"@,
        "Long transcript perf seed"@,
        RuntimeStatus::Idle.label_text(),
        model.cwd,
    );
}

/// Skipped events add up, and stay at the greatest number once they reach it.
pub proof fn law_skipped_add_up(model: ModelView, a: usize, b: usize)
    ensures
        ({
            let total = model.skipped_events + a + b;
            crate::reducer::reduced(
                crate::reducer::reduced(model, EventView::Lagged { skipped: a }),
                EventView::Lagged { skipped: b },
            ).skipped_events == if total > usize::MAX {
                usize::MAX as int
            } else {
                total
            }
        }),
{
}

}
