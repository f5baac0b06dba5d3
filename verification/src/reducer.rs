//! How events change the model.
use vstd::prelude::*;

use crate::model::{
    numbered_text, AppModel, ApprovalRequest, ApprovalView, ItemView, ModelView, RuntimeStatus,
    ThreadSummary, ThreadView, TimelineItem, TimelineKind, TimelineStatus,
};
use crate::text::{decimal_text, integer_text};

verus! {

/// What a runtime reports.
#[derive(Debug, PartialEq, Eq)]
pub enum AgentEvent {
    RuntimeReady { cwd: String },
    ThreadStarted { id: String, title: String },
    UserMessageSubmitted { prompt: String },
    TurnStarted { id: String },
    AgentMessageDelta { item_id: String, delta: String },
    PlanDelta { item_id: String, delta: String },
    ReasoningDelta { item_id: String, delta: String },
    CommandStarted { item_id: String, command: String, cwd: String },
    CommandOutputDelta { item_id: String, delta: String },
    CommandCompleted { item_id: String, exit_code: i32 },
    DiffUpdated { item_id: String, path: String, summary: String },
    ApprovalRequested { id: String, title: String, detail: String, action: String },
    ApprovalResolved { id: String, approved: bool },
    TurnCompleted { id: String },
    Lagged { skipped: usize },
    Disconnected { message: String },
}

/// What an event holds.
#[verifier::ext_equal]
pub enum EventView {
    RuntimeReady { cwd: Seq<char> },
    ThreadStarted { id: Seq<char>, title: Seq<char> },
    UserMessageSubmitted { prompt: Seq<char> },
    TurnStarted { id: Seq<char> },
    AgentMessageDelta { item_id: Seq<char>, delta: Seq<char> },
    PlanDelta { item_id: Seq<char>, delta: Seq<char> },
    ReasoningDelta { item_id: Seq<char>, delta: Seq<char> },
    CommandStarted { item_id: Seq<char>, command: Seq<char>, cwd: Seq<char> },
    CommandOutputDelta { item_id: Seq<char>, delta: Seq<char> },
    CommandCompleted { item_id: Seq<char>, exit_code: i32 },
    DiffUpdated { item_id: Seq<char>, path: Seq<char>, summary: Seq<char> },
    ApprovalRequested {
        id: Seq<char>,
        title: Seq<char>,
        detail: Seq<char>,
        action: Seq<char>,
    },
    ApprovalResolved { id: Seq<char>, approved: bool },
    TurnCompleted { id: Seq<char> },
    Lagged { skipped: usize },
    Disconnected { message: Seq<char> },
}

impl View for AgentEvent {
    type V = EventView;

    open spec fn view(&self) -> EventView {
        match *self {
            AgentEvent::RuntimeReady { cwd } => EventView::RuntimeReady { cwd: cwd@ },
            AgentEvent::ThreadStarted { id, title } => EventView::ThreadStarted {
                id: id@,
                title: title@,
            },
            AgentEvent::UserMessageSubmitted { prompt } => EventView::UserMessageSubmitted {
                prompt: prompt@,
            },
            AgentEvent::TurnStarted { id } => EventView::TurnStarted { id: id@ },
            AgentEvent::AgentMessageDelta { item_id, delta } => EventView::AgentMessageDelta {
                item_id: item_id@,
                delta: delta@,
            },
            AgentEvent::PlanDelta { item_id, delta } => EventView::PlanDelta {
                item_id: item_id@,
                delta: delta@,
            },
            AgentEvent::ReasoningDelta { item_id, delta } => EventView::ReasoningDelta {
                item_id: item_id@,
                delta: delta@,
            },
            AgentEvent::CommandStarted { item_id, command, cwd } => EventView::CommandStarted {
                item_id: item_id@,
                command: command@,
                cwd: cwd@,
            },
            AgentEvent::CommandOutputDelta { item_id, delta } => EventView::CommandOutputDelta {
                item_id: item_id@,
                delta: delta@,
            },
            AgentEvent::CommandCompleted { item_id, exit_code } => EventView::CommandCompleted {
                item_id: item_id@,
                exit_code,
            },
            AgentEvent::DiffUpdated { item_id, path, summary } => EventView::DiffUpdated {
                item_id: item_id@,
                path: path@,
                summary: summary@,
            },
            AgentEvent::ApprovalRequested {
                id,
                title,
                detail,
                action,
            } => EventView::ApprovalRequested {
                id: id@,
                title: title@,
                detail: detail@,
                action: action@,
            },
            AgentEvent::ApprovalResolved { id, approved } => EventView::ApprovalResolved {
                id: id@,
                approved,
            },
            AgentEvent::TurnCompleted { id } => EventView::TurnCompleted { id: id@ },
            AgentEvent::Lagged { skipped } => EventView::Lagged { skipped },
            AgentEvent::Disconnected { message } => EventView::Disconnected { message: message@ },
        }
    }
}

impl Clone for AgentEvent {
    fn clone(&self) -> (event: AgentEvent)
        ensures
            event@ == self@,
    {
        match self {
            AgentEvent::RuntimeReady { cwd } => AgentEvent::RuntimeReady { cwd: cwd.clone() },
            AgentEvent::ThreadStarted { id, title } => AgentEvent::ThreadStarted {
                id: id.clone(),
                title: title.clone(),
            },
            AgentEvent::UserMessageSubmitted { prompt } => AgentEvent::UserMessageSubmitted {
                prompt: prompt.clone(),
            },
            AgentEvent::TurnStarted { id } => AgentEvent::TurnStarted { id: id.clone() },
            AgentEvent::AgentMessageDelta { item_id, delta } => AgentEvent::AgentMessageDelta {
                item_id: item_id.clone(),
                delta: delta.clone(),
            },
            AgentEvent::PlanDelta { item_id, delta } => AgentEvent::PlanDelta {
                item_id: item_id.clone(),
                delta: delta.clone(),
            },
            AgentEvent::ReasoningDelta { item_id, delta } => AgentEvent::ReasoningDelta {
                item_id: item_id.clone(),
                delta: delta.clone(),
            },
            AgentEvent::CommandStarted { item_id, command, cwd } => AgentEvent::CommandStarted {
                item_id: item_id.clone(),
                command: command.clone(),
                cwd: cwd.clone(),
            },
            AgentEvent::CommandOutputDelta { item_id, delta } => AgentEvent::CommandOutputDelta {
                item_id: item_id.clone(),
                delta: delta.clone(),
            },
            AgentEvent::CommandCompleted { item_id, exit_code } => AgentEvent::CommandCompleted {
                item_id: item_id.clone(),
                exit_code: *exit_code,
            },
            AgentEvent::DiffUpdated { item_id, path, summary } => AgentEvent::DiffUpdated {
                item_id: item_id.clone(),
                path: path.clone(),
                summary: summary.clone(),
            },
            AgentEvent::ApprovalRequested {
                id,
                title,
                detail,
                action,
            } => AgentEvent::ApprovalRequested {
                id: id.clone(),
                title: title.clone(),
                detail: detail.clone(),
                action: action.clone(),
            },
            AgentEvent::ApprovalResolved { id, approved } => AgentEvent::ApprovalResolved {
                id: id.clone(),
                approved: *approved,
            },
            AgentEvent::TurnCompleted { id } => AgentEvent::TurnCompleted { id: id.clone() },
            AgentEvent::Lagged { skipped } => AgentEvent::Lagged { skipped: *skipped },
            AgentEvent::Disconnected { message } => AgentEvent::Disconnected {
                message: message.clone(),
            },
        }
    }
}

/// Whether the timeline has an item with an identifier.
pub open spec fn has_item(items: Seq<ItemView>, id: Seq<char>) -> bool {
    exists|i: int| 0 <= i < items.len() && (#[trigger] items[i]).id == id
}

/// Whether the first item with an identifier stands at a place.
pub open spec fn is_first_item(
    items: Seq<ItemView>,
    id: Seq<char>,
    place: int,
) -> bool {
    &&& 0 <= place < items.len()
    &&& items[place].id == id
    &&& forall|i: int| 0 <= i < place ==> (#[trigger] items[i]).id != id
}

/// The place of the first item with an identifier.
pub open spec fn item_place(items: Seq<ItemView>, id: Seq<char>) -> int {
    choose|place: int| is_first_item(items, id, place)
}

/// Whether a thread with an identifier is listed.
pub open spec fn has_thread(threads: Seq<ThreadView>, id: Seq<char>) -> bool {
    exists|i: int| 0 <= i < threads.len() && (#[trigger] threads[i]).id == id
}

/// Whether the first thread with an identifier stands at a place.
pub open spec fn is_first_thread(
    threads: Seq<ThreadView>,
    id: Seq<char>,
    place: int,
) -> bool {
    &&& 0 <= place < threads.len()
    &&& threads[place].id == id
    &&& forall|i: int| 0 <= i < place ==> (#[trigger] threads[i]).id != id
}

/// The place of the first thread with an identifier.
pub open spec fn thread_place(threads: Seq<ThreadView>, id: Seq<char>) -> int {
    choose|place: int| is_first_thread(threads, id, place)
}

/// The timeline with text put behind the body of an item, which starts with that text where there
/// was no such item.
pub open spec fn with_delta(
    items: Seq<ItemView>,
    id: Seq<char>,
    kind: TimelineKind,
    title: Seq<char>,
    meta: Seq<char>,
    delta: Seq<char>,
) -> Seq<ItemView> {
    if has_item(items, id) {
        let place = item_place(items, id);
        items.update(
            place,
            ItemView {
                body: items[place].body + delta,
                status: TimelineStatus::Running,
                ..items[place]
            },
        )
    } else {
        items.push(
            ItemView {
                body: delta,
                id,
                kind,
                meta,
                status: TimelineStatus::Running,
                title,
            },
        )
    }
}

/// The timeline with an item complete, where there is such an item.
pub open spec fn with_complete(
    items: Seq<ItemView>,
    id: Seq<char>,
    meta: Seq<char>,
) -> Seq<ItemView> {
    if has_item(items, id) {
        let place = item_place(items, id);
        items.update(
            place,
            ItemView { meta, status: TimelineStatus::Complete, ..items[place] },
        )
    } else {
        items
    }
}

/// The threads with one of them named anew, or put in front where it was not listed.
pub open spec fn with_thread(
    threads: Seq<ThreadView>,
    id: Seq<char>,
    title: Seq<char>,
    status: Seq<char>,
    subtitle: Seq<char>,
) -> Seq<ThreadView> {
    if has_thread(threads, id) {
        let place = thread_place(threads, id);
        threads.update(place, ThreadView { status, title, ..threads[place] })
    } else {
        seq![ThreadView { id, status, subtitle, title }] + threads
    }
}

/// The threads with the active one idle.
pub open spec fn with_idle(
    threads: Seq<ThreadView>,
    active: Option<Seq<char>>,
) -> Seq<ThreadView> {
    match active {
        Some(id) => if has_thread(threads, id) {
            let place = thread_place(threads, id);
            threads.update(place, ThreadView { status: "Idle"@, ..threads[place] })
        } else {
            threads
        },
        None => threads,
    }
}

/// The approvals that are not the one with an identifier.
pub open spec fn without_approval(
    approvals: Seq<ApprovalView>,
    id: Seq<char>,
) -> Seq<ApprovalView> {
    approvals.filter(|approval: ApprovalView| approval.id != id)
}

/// The model after an event.
pub open spec fn reduced(
    model: ModelView,
    event: EventView,
) -> ModelView {
    match event {
        EventView::RuntimeReady { cwd } => ModelView {
            cwd,
            runtime_status: RuntimeStatus::Idle,
            status_message: "Runtime ready"@,
            ..model
        },
        EventView::ThreadStarted { id, title } => ModelView {
            threads: with_thread(
                model.threads,
                id,
                title,
                model.runtime_status.label_text(),
                model.cwd,
            ),
            active_thread: Some(id),
            ..model
        },
        EventView::UserMessageSubmitted { prompt } => ModelView {
            timeline: model.timeline.push(
                ItemView {
                    body: prompt,
                    id: crate::model::numbered("user"@, (model.next_timeline_id + 1) as nat),
                    kind: TimelineKind::User,
                    meta: "submitted"@,
                    status: TimelineStatus::Complete,
                    title: "Prompt"@,
                },
            ),
            next_timeline_id: (model.next_timeline_id + 1) as usize,
            ..model
        },
        EventView::TurnStarted { id } => ModelView {
            runtime_status: RuntimeStatus::Running,
            status_message: "Streaming fake agent events"@,
            turn_status: "Turn "@ + id + " running"@,
            ..model
        },
        EventView::AgentMessageDelta { item_id, delta } => ModelView {
            timeline: with_delta(
                model.timeline,
                item_id,
                TimelineKind::Assistant,
                "Assistant response"@,
                "streaming"@,
                delta,
            ),
            ..model
        },
        EventView::PlanDelta { item_id, delta } => ModelView {
            timeline: with_delta(
                model.timeline,
                item_id,
                TimelineKind::Plan,
                "Plan"@,
                "updated"@,
                delta,
            ),
            ..model
        },
        EventView::ReasoningDelta { item_id, delta } => ModelView {
            timeline: with_delta(
                model.timeline,
                item_id,
                TimelineKind::Reasoning,
                "Reasoning summary"@,
                "streaming"@,
                delta,
            ),
            ..model
        },
        EventView::CommandStarted { item_id, command, cwd } => ModelView {
            timeline: model.timeline.push(
                ItemView {
                    body: Seq::empty(),
                    id: item_id,
                    kind: TimelineKind::Command,
                    meta: cwd,
                    status: TimelineStatus::Running,
                    title: command,
                },
            ),
            ..model
        },
        EventView::CommandOutputDelta { item_id, delta } => ModelView {
            timeline: with_delta(
                model.timeline,
                item_id,
                TimelineKind::Command,
                "Command"@,
                "streaming"@,
                delta,
            ),
            ..model
        },
        EventView::CommandCompleted { item_id, exit_code } => ModelView {
            timeline: with_complete(
                model.timeline,
                item_id,
                "exit code "@ + crate::text::integer(exit_code as int),
            ),
            ..model
        },
        EventView::DiffUpdated { item_id, path, summary } => ModelView {
            timeline: model.timeline.push(
                ItemView {
                    body: summary,
                    id: item_id,
                    kind: TimelineKind::Diff,
                    meta: "working tree"@,
                    status: TimelineStatus::Complete,
                    title: path,
                },
            ),
            ..model
        },
        EventView::ApprovalRequested { id, title, detail, action } => ModelView {
            runtime_status: RuntimeStatus::WaitingForApproval,
            status_message: "Approval pending"@,
            pending_approvals: model.pending_approvals.push(
                ApprovalView { action, detail, id, title },
            ),
            timeline: model.timeline.push(
                ItemView {
                    body: title,
                    id,
                    kind: TimelineKind::System,
                    meta: "pending"@,
                    status: TimelineStatus::Pending,
                    title: "Approval requested"@,
                },
            ),
            ..model
        },
        EventView::ApprovalResolved { id, approved } => ModelView {
            pending_approvals: without_approval(model.pending_approvals, id),
            timeline: with_complete(
                model.timeline,
                id,
                if approved {
                    "approved"@
                } else {
                    "denied"@
                },
            ),
            runtime_status: RuntimeStatus::Running,
            status_message: "Approval resolved"@,
            ..model
        },
        EventView::TurnCompleted { id } => ModelView {
            runtime_status: RuntimeStatus::Idle,
            status_message: "Fake turn complete"@,
            turn_status: "Turn "@ + id + " complete"@,
            threads: with_idle(model.threads, model.active_thread),
            ..model
        },
        EventView::Lagged { skipped } => ModelView {
            skipped_events: if model.skipped_events + skipped > usize::MAX {
                usize::MAX
            } else {
                (model.skipped_events + skipped) as usize
            },
            status_message: "Skipped "@ + crate::text::decimal(skipped as nat)
                + " best-effort events"@,
            ..model
        },
        EventView::Disconnected { message } => ModelView {
            runtime_status: RuntimeStatus::Disconnected,
            status_message: message,
            ..model
        },
    }
}

/// At most one place is the first with an identifier.
pub proof fn lemma_item_place(items: Seq<ItemView>, id: Seq<char>, place: int)
    requires
        is_first_item(items, id, place),
    ensures
        has_item(items, id),
        item_place(items, id) == place,
{
    let found = item_place(items, id);
    assert(is_first_item(items, id, found));
    if found < place {
        assert(items[found].id != id);
    }
    if place < found {
        assert(items[place].id != id);
    }
}

/// At most one place is the first with an identifier.
pub proof fn lemma_thread_place(threads: Seq<ThreadView>, id: Seq<char>, place: int)
    requires
        is_first_thread(threads, id, place),
    ensures
        has_thread(threads, id),
        thread_place(threads, id) == place,
{
    let found = thread_place(threads, id);
    assert(is_first_thread(threads, id, found));
    if found < place {
        assert(threads[found].id != id);
    }
    if place < found {
        assert(threads[place].id != id);
    }
}

/// The place of the first item with an identifier.
fn find_item(items: &Vec<TimelineItem>, id: &String) -> (place: Option<usize>)
    ensures
        match place {
            Some(i) => is_first_item(crate::model::items_view(items@), id@, i as int) && item_place(
                crate::model::items_view(items@),
                id@,
            ) == i && has_item(crate::model::items_view(items@), id@),
            None => !has_item(crate::model::items_view(items@), id@),
        },
{
    let ghost view = crate::model::items_view(items@);
    let mut i: usize = 0;
    while i < items.len()
        invariant
            i <= items@.len(),
            view == crate::model::items_view(items@),
            forall|k: int| 0 <= k < i ==> (#[trigger] view[k]).id != id@,
        decreases items@.len() - i,
    {
        if items[i].id == *id {
            proof {
                assert(view[i as int].id == id@);
                lemma_item_place(view, id@, i as int);
            }
            return Some(i);
        }
        assert(view[i as int].id != id@);
        i += 1;
    }
    None
}

/// The place of the first thread with an identifier.
fn find_thread(threads: &Vec<ThreadSummary>, id: &String) -> (place: Option<usize>)
    ensures
        match place {
            Some(i) => is_first_thread(crate::model::threads_view(threads@), id@, i as int)
                && thread_place(crate::model::threads_view(threads@), id@) == i && has_thread(
                crate::model::threads_view(threads@),
                id@,
            ),
            None => !has_thread(crate::model::threads_view(threads@), id@),
        },
{
    let ghost view = crate::model::threads_view(threads@);
    let mut i: usize = 0;
    while i < threads.len()
        invariant
            i <= threads@.len(),
            view == crate::model::threads_view(threads@),
            forall|k: int| 0 <= k < i ==> (#[trigger] view[k]).id != id@,
        decreases threads@.len() - i,
    {
        if threads[i].id == *id {
            proof {
                assert(view[i as int].id == id@);
                lemma_thread_place(view, id@, i as int);
            }
            return Some(i);
        }
        assert(view[i as int].id != id@);
        i += 1;
    }
    None
}

/// Puts an item at the end of the timeline.
pub fn push_item(
    model: &mut AppModel,
    id: String,
    kind: TimelineKind,
    title: String,
    body: String,
    meta: String,
    status: TimelineStatus,
)
    ensures
        final(model)@ == (ModelView {
            timeline: old(model)@.timeline.push(
                ItemView {
                    body: body@,
                    id: id@,
                    kind,
                    meta: meta@,
                    status,
                    title: title@,
                },
            ),
            ..old(model)@
        }),
{
    let item = TimelineItem { body, id, kind, meta, status, title };
    model.timeline.push(item);
    assert(crate::model::items_view(model.timeline@) =~= crate::model::items_view(
        old(model).timeline@,
    ).push(item@));
}

/// Puts text behind the body of an item, or starts an item with it.
pub fn append_to_item(
    model: &mut AppModel,
    item_id: String,
    kind: TimelineKind,
    title: String,
    meta: String,
    delta: String,
)
    ensures
        final(model)@ == (ModelView {
            timeline: with_delta(old(model)@.timeline, item_id@, kind, title@, meta@, delta@),
            ..old(model)@
        }),
{
    match find_item(&model.timeline, &item_id) {
        Some(i) => {
            let item = &mut model.timeline[i];
            item.body.append(delta.as_str());
            item.status = TimelineStatus::Running;
            assert(crate::model::items_view(model.timeline@) =~= with_delta(
                old(model)@.timeline,
                item_id@,
                kind,
                title@,
                meta@,
                delta@,
            ));
        },
        None => {
            push_item(model, item_id, kind, title, delta, meta, TimelineStatus::Running);
        },
    }
}

/// Marks an item complete, where there is such an item.
fn complete_item(model: &mut AppModel, id: &String, meta: String)
    ensures
        final(model)@ == (ModelView {
            timeline: with_complete(old(model)@.timeline, id@, meta@),
            ..old(model)@
        }),
{
    if let Some(i) = find_item(&model.timeline, id) {
        let item = &mut model.timeline[i];
        item.meta = meta;
        item.status = TimelineStatus::Complete;
        assert(crate::model::items_view(model.timeline@) =~= with_complete(
            old(model)@.timeline,
            id@,
            meta@,
        ));
    }
}

/// Names a listed thread anew, or puts a thread in front of the list.
pub fn upsert_thread(model: &mut AppModel, id: String, title: String)
    ensures
        final(model)@ == (ModelView {
            threads: with_thread(
                old(model)@.threads,
                id@,
                title@,
                old(model)@.runtime_status.label_text(),
                old(model)@.cwd,
            ),
            ..old(model)@
        }),
{
    let status = model.runtime_status.label().to_string();
    match find_thread(&model.threads, &id) {
        Some(i) => {
            let thread = &mut model.threads[i];
            thread.status = status;
            thread.title = title;
        },
        None => {
            let subtitle = model.cwd.clone();
            model.threads.insert(0, ThreadSummary { id, status, subtitle, title });
        },
    }
    assert(crate::model::threads_view(model.threads@) =~= with_thread(
        old(model)@.threads,
        id@,
        title@,
        old(model)@.runtime_status.label_text(),
        old(model)@.cwd,
    ));
}

/// Marks the active thread idle, where it is listed.
fn rest_active_thread(model: &mut AppModel)
    ensures
        final(model)@ == (ModelView {
            threads: with_idle(old(model)@.threads, old(model)@.active_thread),
            ..old(model)@
        }),
{
    let place = match &model.active_thread {
        Some(active) => find_thread(&model.threads, active),
        None => None,
    };
    if let Some(i) = place {
        let thread = &mut model.threads[i];
        thread.status = "Idle".to_string();
        assert(crate::model::threads_view(model.threads@) =~= with_idle(
            old(model)@.threads,
            old(model)@.active_thread,
        ));
    }
}

/// Filtering one element more.
pub proof fn lemma_without_push(approvals: Seq<ApprovalView>, approval: ApprovalView, id: Seq<char>)
    ensures
        without_approval(approvals.push(approval), id) == if approval.id != id {
            without_approval(approvals, id).push(approval)
        } else {
            without_approval(approvals, id)
        },
{
    reveal(Seq::filter);
    assert(approvals.push(approval).drop_last() =~= approvals);
}

/// Takes the approvals with an identifier off the list.
fn drop_approvals(model: &mut AppModel, id: &String)
    ensures
        final(model)@ == (ModelView {
            pending_approvals: without_approval(old(model)@.pending_approvals, id@),
            ..old(model)@
        }),
{
    let mut i: usize = 0;
    let ghost all = old(model)@.pending_approvals;
    let ghost mut seen: int = 0;
    proof {
        reveal(Seq::filter);
    }
    assert(crate::model::approvals_view(model.pending_approvals@.take(0)) =~= without_approval(
        all.take(0),
        id@,
    ));
    assert(crate::model::approvals_view(model.pending_approvals@.skip(0)) =~= all.skip(0));
    while i < model.pending_approvals.len()
        invariant
            0 <= seen <= all.len(),
            all == old(model)@.pending_approvals,
            i <= model.pending_approvals@.len(),
            crate::model::approvals_view(model.pending_approvals@.take(i as int))
                == without_approval(all.take(seen), id@),
            crate::model::approvals_view(model.pending_approvals@.skip(i as int)) == all.skip(seen),
            model@ == (ModelView {
                pending_approvals: model@.pending_approvals,
                ..old(model)@
            }),
        decreases model.pending_approvals@.len() - i,
    {
        let ghost before = model.pending_approvals@;
        proof {
            assert(crate::model::approvals_view(before.skip(i as int))[0] == before[i as int]@);
            assert(all.skip(seen).len() == all.len() - seen);
            assert(all.skip(seen)[0] == all[seen]);
            lemma_without_push(all.take(seen), all[seen], id@);
            assert(all.take(seen + 1) =~= all.take(seen).push(all[seen]));
            assert(all.skip(seen + 1) =~= all.skip(seen).drop_first());
            assert(crate::model::approvals_view(before.skip(i + 1))
                =~= crate::model::approvals_view(before.skip(i as int)).drop_first());
        }
        if model.pending_approvals[i].id == *id {
            model.pending_approvals.remove(i);
            assert(model.pending_approvals@.take(i as int) =~= before.take(i as int));
            assert(model.pending_approvals@.skip(i as int) =~= before.skip(i + 1));
        } else {
            assert(crate::model::approvals_view(before.take(i + 1))
                =~= crate::model::approvals_view(before.take(i as int)).push(all[seen]));
            i += 1;
        }
        proof {
            seen = seen + 1;
        }
    }
    assert(model.pending_approvals@.take(i as int) =~= model.pending_approvals@);
    assert(all.take(seen) =~= all);
}

/// Applies an event to the model.
pub fn reduce(model: &mut AppModel, event: AgentEvent)
    requires
        event is UserMessageSubmitted ==> old(model).next_timeline_id < usize::MAX,
    ensures
        final(model)@ == reduced(old(model)@, event@),
{
    match event {
        AgentEvent::RuntimeReady { cwd } => {
            model.cwd = cwd;
            model.runtime_status = RuntimeStatus::Idle;
            model.status_message = "Runtime ready".to_string();
        },
        AgentEvent::ThreadStarted { id, title } => {
            upsert_thread(model, id.clone(), title);
            model.active_thread = Some(id);
        },
        AgentEvent::UserMessageSubmitted { prompt } => {
            let id = model.next_timeline_id("user");
            push_item(
                model,
                id,
                TimelineKind::User,
                "Prompt".to_string(),
                prompt,
                "submitted".to_string(),
                TimelineStatus::Complete,
            );
        },
        AgentEvent::TurnStarted { id } => {
            model.runtime_status = RuntimeStatus::Running;
            model.status_message = "Streaming fake agent events".to_string();
            model.turn_status = "Turn ".to_string().concat(id.as_str()).concat(" running");
        },
        AgentEvent::AgentMessageDelta { item_id, delta } => {
            append_to_item(
                model,
                item_id,
                TimelineKind::Assistant,
                "Assistant response".to_string(),
                "streaming".to_string(),
                delta,
            );
        },
        AgentEvent::PlanDelta { item_id, delta } => {
            append_to_item(
                model,
                item_id,
                TimelineKind::Plan,
                "Plan".to_string(),
                "updated".to_string(),
                delta,
            );
        },
        AgentEvent::ReasoningDelta { item_id, delta } => {
            append_to_item(
                model,
                item_id,
                TimelineKind::Reasoning,
                "Reasoning summary".to_string(),
                "streaming".to_string(),
                delta,
            );
        },
        AgentEvent::CommandStarted { item_id, command, cwd } => {
            push_item(
                model,
                item_id,
                TimelineKind::Command,
                command,
                String::new(),
                cwd,
                TimelineStatus::Running,
            );
        },
        AgentEvent::CommandOutputDelta { item_id, delta } => {
            append_to_item(
                model,
                item_id,
                TimelineKind::Command,
                "Command".to_string(),
                "streaming".to_string(),
                delta,
            );
        },
        AgentEvent::CommandCompleted { item_id, exit_code } => {
            let meta = "exit code ".to_string().concat(integer_text(exit_code as i64).as_str());
            complete_item(model, &item_id, meta);
        },
        AgentEvent::DiffUpdated { item_id, path, summary } => {
            push_item(
                model,
                item_id,
                TimelineKind::Diff,
                path,
                summary,
                "working tree".to_string(),
                TimelineStatus::Complete,
            );
        },
        AgentEvent::ApprovalRequested { id, title, detail, action } => {
            model.runtime_status = RuntimeStatus::WaitingForApproval;
            model.status_message = "Approval pending".to_string();
            let approval = ApprovalRequest { action, detail, id: id.clone(), title: title.clone() };
            model.pending_approvals.push(approval);
            assert(crate::model::approvals_view(model.pending_approvals@)
                =~= old(model)@.pending_approvals.push(approval@));
            push_item(
                model,
                id,
                TimelineKind::System,
                "Approval requested".to_string(),
                title,
                "pending".to_string(),
                TimelineStatus::Pending,
            );
        },
        AgentEvent::ApprovalResolved { id, approved } => {
            drop_approvals(model, &id);
            let meta = if approved {
                "approved".to_string()
            } else {
                "denied".to_string()
            };
            complete_item(model, &id, meta);
            model.runtime_status = RuntimeStatus::Running;
            model.status_message = "Approval resolved".to_string();
        },
        AgentEvent::TurnCompleted { id } => {
            model.runtime_status = RuntimeStatus::Idle;
            model.status_message = "Fake turn complete".to_string();
            model.turn_status = "Turn ".to_string().concat(id.as_str()).concat(" complete");
            rest_active_thread(model);
        },
        AgentEvent::Lagged { skipped } => {
            model.skipped_events = model.skipped_events.saturating_add(skipped);
            model.status_message =
            "Skipped ".to_string().concat(decimal_text(skipped as u64).as_str()).concat(
                " best-effort events",
            );
        },
        AgentEvent::Disconnected { message } => {
            model.runtime_status = RuntimeStatus::Disconnected;
            model.status_message = message;
        },
    }
}

/// A row of the long transcript: the five kinds take turns.
pub open spec fn seed_item(row: nat) -> ItemView {
    let number = crate::text::decimal(row);
    let (kind, title, body) = if row % 5 == 0 {
        (
            TimelineKind::User,
            "Prompt"@,
            "Seed prompt #"@ + number + ": inspect the workspace and report progress."@,
        )
    } else if row % 5 == 1 {
        (
            TimelineKind::Assistant,
            "Assistant response"@,
            "Streaming response row #"@ + number
                + ". This compact row keeps virtualization stable."@,
        )
    } else if row % 5 == 2 {
        (
            TimelineKind::Command,
            "cargo check"@,
            "checked target row #"@ + number + "\nfinished in 0.1s"@,
        )
    } else if row % 5 == 3 {
        (
            TimelineKind::Plan,
            "Plan"@,
            "Row #"@ + number + ": create shell, wire fake runtime, verify."@,
        )
    } else {
        (
            TimelineKind::Diff,
            "src/ui/root.rs"@,
            "+ rendered virtual row #"@ + number + "\n- placeholder-only layout"@,
        )
    };
    ItemView {
        body,
        id: crate::model::numbered("seed"@, row),
        kind,
        meta: "seeded"@,
        status: TimelineStatus::Complete,
        title,
    }
}

/// The model that shows a long transcript.
pub open spec fn seeded(model: ModelView, count: nat) -> ModelView {
    ModelView {
        timeline: Seq::new(count, |row: int| seed_item(row as nat)),
        pending_approvals: Seq::empty(),
        next_timeline_id: 0,
        runtime_status: RuntimeStatus::Idle,
        status_message: "Seeded "@ + crate::text::decimal(count) + " timeline rows"@,
        threads: with_thread(
            model.threads,
            "seeded-thread"@,
            "Long transcript perf seed"@,
            RuntimeStatus::Idle.label_text(),
            model.cwd,
        ),
        active_thread: Some("seeded-thread"@),
        ..model
    }
}

/// Puts one row of the long transcript at the end of the timeline.
fn push_seed_row(model: &mut AppModel, row: usize)
    ensures
        final(model)@ == (ModelView {
            timeline: old(model)@.timeline.push(seed_item(row as nat)),
            ..old(model)@
        }),
{
    let number = decimal_text(row as u64);
    let (kind, title, body) = match row % 5 {
        0 => (
            TimelineKind::User,
            "Prompt".to_string(),
            "Seed prompt #".to_string().concat(number.as_str()).concat(
                ": inspect the workspace and report progress.",
            ),
        ),
        1 => (
            TimelineKind::Assistant,
            "Assistant response".to_string(),
            "Streaming response row #".to_string().concat(number.as_str()).concat(
                ". This compact row keeps virtualization stable.",
            ),
        ),
        2 => (
            TimelineKind::Command,
            "cargo check".to_string(),
            "checked target row #".to_string().concat(number.as_str()).concat(
                "\nfinished in 0.1s",
            ),
        ),
        3 => (
            TimelineKind::Plan,
            "Plan".to_string(),
            "Row #".to_string().concat(number.as_str()).concat(
                ": create shell, wire fake runtime, verify.",
            ),
        ),
        _ => (
            TimelineKind::Diff,
            "src/ui/root.rs".to_string(),
            "+ rendered virtual row #".to_string().concat(number.as_str()).concat(
                "\n- placeholder-only layout",
            ),
        ),
    };
    push_item(
        model,
        numbered_text("seed", row as u64),
        kind,
        title,
        body,
        "seeded".to_string(),
        TimelineStatus::Complete,
    );
}

/// Replaces the timeline with a long transcript of made-up rows.
pub fn seed_long_transcript(model: &mut AppModel, count: usize)
    ensures
        final(model)@ == seeded(old(model)@, count as nat),
{
    model.timeline.clear();
    model.pending_approvals.clear();
    model.next_timeline_id = 0;
    model.runtime_status = RuntimeStatus::Idle;
    model.status_message =
    "Seeded ".to_string().concat(decimal_text(count as u64).as_str()).concat(" timeline rows");
    assert(crate::model::approvals_view(model.pending_approvals@) =~= Seq::empty());
    upsert_thread(model, "seeded-thread".to_string(), "Long transcript perf seed".to_string());
    model.active_thread = Some("seeded-thread".to_string());

    let mut row: usize = 0;
    assert(model@.timeline =~= Seq::new(0nat, |row: int| seed_item(row as nat)));
    while row < count
        invariant
            row <= count,
            model@ == (ModelView {
                timeline: Seq::new(row as nat, |row: int| seed_item(row as nat)),
                ..seeded(old(model)@, count as nat)
            }),
        decreases count - row,
    {
        push_seed_row(model, row);
        assert(model@.timeline =~= Seq::new((row + 1) as nat, |row: int| seed_item(row as nat)));
        row += 1;
    }
}

}
