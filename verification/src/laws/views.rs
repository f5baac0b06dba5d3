//! Values stand in contracts for what they hold, field by field.
use vstd::prelude::*;

use crate::json::Json;
use crate::model::{AppModel, ApprovalRequest, ThreadSummary, TimelineItem};
use crate::reducer::{AgentEvent, EventView};
use crate::runtime::app_server::{AppServerWireEvent, WireView};
use crate::runtime::fake::ScriptedAgentEvent;
use crate::ui::approvals::{ApprovalTable, PendingServerApproval};
use crate::ui::root::{Delivery, Outgoing, ProjectPath, PromptOutcome, RootView};
use crate::ui::state::{DeliveryView, PathView, PromptView};

verus! {

/// A thread, an item and an approval stand for their texts.
pub proof fn law_rows_stand_for_their_texts(
    thread: ThreadSummary,
    item: TimelineItem,
    approval: ApprovalRequest,
)
    ensures
        thread@.id == thread.id@ && thread@.status == thread.status@ && thread@.subtitle
            == thread.subtitle@ && thread@.title == thread.title@,
        item@.body == item.body@ && item@.id == item.id@ && item@.kind == item.kind && item@.meta
            == item.meta@ && item@.status == item.status && item@.title == item.title@,
        approval@.action == approval.action@ && approval@.detail == approval.detail@
            && approval@.id == approval.id@ && approval@.title == approval.title@,
{
}

/// A model stands for its fields, and its lists for what they hold, one by one and in order.
pub proof fn law_model_stands_for_its_fields(model: AppModel)
    ensures
        model@.account_label == model.account_label@,
        model@.active_model == model.active_model@,
        match model.active_thread {
            Some(id) => model@.active_thread == Some(id@),
            None => model@.active_thread is None,
        },
        model@.cwd == model.cwd@,
        model@.runtime_status == model.runtime_status,
        model@.sandbox_label == model.sandbox_label@,
        model@.skipped_events == model.skipped_events,
        model@.status_message == model.status_message@,
        model@.turn_status == model.turn_status@,
        model@.next_timeline_id == model.next_timeline_id,
        model@.timeline.len() == model.timeline@.len(),
        forall|i: int|
            0 <= i < model.timeline@.len() ==> #[trigger] model@.timeline[i]
                == model.timeline@[i]@,
        model@.threads.len() == model.threads@.len(),
        forall|i: int|
            0 <= i < model.threads@.len() ==> #[trigger] model@.threads[i] == model.threads@[i]@,
        model@.pending_approvals.len() == model.pending_approvals@.len(),
        forall|i: int|
            0 <= i < model.pending_approvals@.len() ==> #[trigger] model@.pending_approvals[i]
                == model.pending_approvals@[i]@,
{
}

/// An event stands for its kind and its fields.
pub proof fn law_events_stand_for_their_fields(event: AgentEvent)
    ensures
        match event {
            AgentEvent::RuntimeReady { cwd } => event@ == (EventView::RuntimeReady { cwd: cwd@ }),
            AgentEvent::ThreadStarted { id, title } => event@ == (EventView::ThreadStarted {
                id: id@,
                title: title@,
            }),
            AgentEvent::UserMessageSubmitted { prompt } => event@ == (
            EventView::UserMessageSubmitted { prompt: prompt@ }),
            AgentEvent::TurnStarted { id } => event@ == (EventView::TurnStarted { id: id@ }),
            AgentEvent::AgentMessageDelta { item_id, delta } => event@ == (
            EventView::AgentMessageDelta { item_id: item_id@, delta: delta@ }),
            AgentEvent::PlanDelta { item_id, delta } => event@ == (EventView::PlanDelta {
                item_id: item_id@,
                delta: delta@,
            }),
            AgentEvent::ReasoningDelta { item_id, delta } => event@ == (
            EventView::ReasoningDelta { item_id: item_id@, delta: delta@ }),
            AgentEvent::CommandStarted { item_id, command, cwd } => event@ == (
            EventView::CommandStarted { item_id: item_id@, command: command@, cwd: cwd@ }),
            AgentEvent::CommandOutputDelta { item_id, delta } => event@ == (
            EventView::CommandOutputDelta { item_id: item_id@, delta: delta@ }),
            AgentEvent::CommandCompleted { item_id, exit_code } => event@ == (
            EventView::CommandCompleted { item_id: item_id@, exit_code }),
            AgentEvent::DiffUpdated { item_id, path, summary } => event@ == (
            EventView::DiffUpdated { item_id: item_id@, path: path@, summary: summary@ }),
            AgentEvent::ApprovalRequested { id, title, detail, action } => event@ == (
            EventView::ApprovalRequested {
                id: id@,
                title: title@,
                detail: detail@,
                action: action@,
            }),
            AgentEvent::ApprovalResolved { id, approved } => event@ == (
            EventView::ApprovalResolved { id: id@, approved }),
            AgentEvent::TurnCompleted { id } => event@ == (EventView::TurnCompleted { id: id@ }),
            AgentEvent::Lagged { skipped } => event@ == (EventView::Lagged { skipped }),
            AgentEvent::Disconnected { message } => event@ == (EventView::Disconnected {
                message: message@,
            }),
        },
{
}

/// What comes from the app-server stands for its kind and what it carries.
pub proof fn law_wire_events_stand_for_their_messages(event: AppServerWireEvent)
    ensures
        match event {
            AppServerWireEvent::Response(message) => event@ == WireView::Response(message@),
            AppServerWireEvent::ServerRequest(message) => event@ == WireView::ServerRequest(
                message@,
            ),
            AppServerWireEvent::Notification(message) => event@ == WireView::Notification(message@),
            AppServerWireEvent::MalformedLine(line) => event@ == WireView::MalformedLine(line@),
            AppServerWireEvent::IoError(error) => event@ == WireView::IoError(error@),
        },
{
}

/// A step of a script stands for its wait and its event, and a script for its steps in order.
pub proof fn law_scripts_stand_for_their_steps(script: Seq<ScriptedAgentEvent>)
    ensures
        crate::runtime::fake::script_view(script).len() == script.len(),
        forall|i: int|
            0 <= i < script.len() ==> (#[trigger] crate::runtime::fake::script_view(script)[i])
                == script[i]@ && script[i]@.event == script[i].event@ && script[i]@.delay
                == crate::runtime::fake::duration_millis(script[i].delay),
{
}

/// What is optional stands for what it holds, if it holds anything.
pub proof fn law_options_stand_for_what_they_hold(
    text: Option<String>,
    event: Option<AgentEvent>,
    document: Option<Json>,
    message: Option<Outgoing>,
    outcome: Result<(), String>,
)
    ensures
        match text {
            Some(t) => crate::model::option_view(text) == Some(t@),
            None => crate::model::option_view(text) is None,
        },
        match event {
            Some(e) => crate::runtime::app_server::optional_event(event) == Some(e@),
            None => crate::runtime::app_server::optional_event(event) is None,
        },
        match document {
            Some(j) => crate::runtime::app_server::optional_document(document) == Some(j@),
            None => crate::runtime::app_server::optional_document(document) is None,
        },
        match message {
            Some(m) => crate::ui::root::optional_outgoing(message) == Some(m@),
            None => crate::ui::root::optional_outgoing(message) is None,
        },
        match outcome {
            Ok(_) => crate::ui::root::outcome_view(outcome) is Ok,
            Err(error) => crate::ui::root::outcome_view(outcome) == Err::<(), Seq<char>>(error@),
        },
{
}

/// A message for the app-server stands for the document it carries and what is to be done with it,
/// and a list of messages for them in order.
pub proof fn law_messages_stand_for_what_they_carry(
    messages: Seq<Outgoing>,
    delivery: Delivery,
    pending: PendingServerApproval,
)
    ensures
        crate::ui::root::outgoing_view(messages).len() == messages.len(),
        forall|i: int|
            0 <= i < messages.len() ==> (#[trigger] crate::ui::root::outgoing_view(messages)[i])
                == messages[i]@ && messages[i]@.message == messages[i].message@
                && messages[i]@.delivery == messages[i].delivery@,
        match delivery {
            Delivery::Request { id, pending } => delivery@ == (DeliveryView::Request {
                id,
                pending,
            }),
            Delivery::Notification => delivery@ == DeliveryView::Notification,
            Delivery::Approval { approval_id, approved, pending } => delivery@ == (
            DeliveryView::Approval { approval_id: approval_id@, approved, pending: pending@ }),
            Delivery::Refusal => delivery@ == DeliveryView::Refusal,
        },
        pending@.method == pending.method@ && pending@.params == pending.params@
            && pending@.request_id == pending.request_id@,
{
}

/// What comes of a prompt, and a path, stand for their kind and what they carry.
pub proof fn law_outcomes_stand_for_what_they_carry(outcome: PromptOutcome, path: ProjectPath)
    ensures
        match outcome {
            PromptOutcome::Ignored => outcome@ == PromptView::Ignored,
            PromptOutcome::Refused => outcome@ == PromptView::Refused,
            PromptOutcome::Live(Some(message)) => outcome@ == PromptView::Live(Some(message@)),
            PromptOutcome::Live(None) => outcome@ == PromptView::Live(None),
            PromptOutcome::Scripted { token, script } => outcome@ == (PromptView::Scripted {
                token,
                script: crate::runtime::fake::script_view(script@),
            }),
        },
        match path {
            ProjectPath::Directory(text) => path@ == PathView::Directory(text@),
            ProjectPath::NotDirectory(text) => path@ == PathView::NotDirectory(text@),
            ProjectPath::Invalid(text) => path@ == PathView::Invalid(text@),
        },
{
}

/// The window stands for its fields.
pub proof fn law_window_stands_for_its_fields(view: RootView)
    ensures
        view@.connected == view.connected,
        match view.live_thread_id {
            Some(id) => view@.live_thread_id == Some(id@),
            None => view@.live_thread_id is None,
        },
        match view.live_turn_id {
            Some(id) => view@.live_turn_id == Some(id@),
            None => view@.live_turn_id is None,
        },
        view@.model == view.model@,
        view@.pending_requests == view.pending_requests@,
        view@.pending_server_approvals == view.pending_server_approvals@,
        view@.next_id == view.request_builder.next_id,
        view@.next_turn == view.runtime.next_turn,
        view@.stream_token == view.stream_token,
        view.well_formed() == view.pending_server_approvals.well_formed(),
{
}

/// A table is in order if no identifier occurs twice, and then holds under each identifier the
/// entry that has it, and nothing else.
pub proof fn law_tables_hold_their_entries(table: ApprovalTable)
    ensures
        table.well_formed() <==> forall|i: int, j: int|
            0 <= i < j < table.entries@.len() ==> (#[trigger] table.entries@[i]).0@ != (
            #[trigger] table.entries@[j]).0@,
        table.well_formed() ==> forall|i: int|
            0 <= i < table.entries@.len() ==> table@.contains_key(
                (#[trigger] table.entries@[i]).0@,
            ) && table@[table.entries@[i].0@] == table.entries@[i].1@,
        forall|key: Seq<char>| #[trigger]
            table@.contains_key(key) ==> exists|i: int|
                0 <= i < table.entries@.len() && (#[trigger] table.entries@[i]).0@ == key,
{
    let entries = table.entries@;
    if table.well_formed() {
        assert forall|i: int| 0 <= i < entries.len() implies table@.contains_key(
            (#[trigger] entries[i]).0@,
        ) && table@[entries[i].0@] == entries[i].1@ by {
            crate::ui::approvals::lemma_removed(entries, i);
        }
    }
    assert forall|key: Seq<char>| #[trigger] table@.contains_key(key) implies exists|i: int|
        0 <= i < entries.len() && (#[trigger] entries[i]).0@ == key by {
        if forall|i: int| 0 <= i < entries.len() ==> (#[trigger] entries[i]).0@ != key {
            crate::ui::approvals::lemma_absent(entries, key);
        }
    }
}

}
