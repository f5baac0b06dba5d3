//! What each thing that happens to the window leads to, from what comes in to what goes out.
use vstd::prelude::*;

use crate::json::{JsonView, NumberView};
use crate::model::{ModelView, RuntimeStatus};
use crate::reducer::EventView;
use crate::runtime::app_server::WireView;
use crate::ui::approvals::PendingView;
use crate::ui::root::PendingRequest;
use crate::ui::state::{DeliveryView, OutgoingView, PathView, PromptView, RootState};

verus! {

/// A state that differs from another in nothing but the status message.
pub open spec fn with_words(state: RootState, words: Seq<char>) -> RootState {
    RootState { model: ModelView { status_message: words, ..state.model }, ..state }
}

/// Whether a message is the request with a number and a method, to be noted under that number.
pub open spec fn is_request(
    outgoing: OutgoingView,
    number: u64,
    method: Seq<char>,
    pending: PendingRequest,
) -> bool {
    &&& outgoing.message.field("id"@) == Some(
        JsonView::Number(NumberView::Integer(number as int)),
    )
    &&& outgoing.message.text_at("method"@) == Some(method)
    &&& outgoing.message.field("result"@) is None
    &&& outgoing.message.field("error"@) is None
    &&& outgoing.delivery == DeliveryView::Request { id: number, pending }
}

/// The text that a turn is started with.
pub open spec fn first_input(message: JsonView) -> JsonView {
    match message.field_or_null("params"@).field("input"@) {
        Some(JsonView::Array(inputs)) => inputs[0],
        _ => JsonView::Null,
    }
}

/// A window is opened unconnected and idle, with nothing in it, in the directory it is opened in.
pub proof fn law_window_is_opened(cwd: Option<Seq<char>>)
    ensures
        ({
            let state = crate::ui::state::initial_state(cwd);
            &&& cwd matches Some(path) ==> state.model.cwd == path
            &&& cwd is None ==> state.model.cwd == "No workspace selected"@
            &&& state.model.status_message == "Phase 0 fake runtime ready"@
            &&& state.model.runtime_status == RuntimeStatus::Idle
            &&& state.model.turn_status == "Idle"@ && state.model.active_thread is None
            &&& state.model.timeline.len() == 0 && state.model.threads.len() == 0
                && state.model.pending_approvals.len() == 0
            &&& state.model.skipped_events == 0 && state.model.next_timeline_id == 0
            &&& state.model.account_label == "Local account"@ && state.model.active_model
                == "gpt-5.4"@ && state.model.sandbox_label == "workspace-write"@
            &&& !state.connected && state.live_thread_id is None && state.live_turn_id is None
            &&& state.pending_requests.dom() =~= Set::empty()
            &&& state.pending_server_approvals.dom() =~= Set::empty()
            &&& state.next_id == 1 && state.next_turn == 0 && state.stream_token == 0
        }),
{
}

/// The window is busy while a turn runs or waits for an approval; its last row is the one to scroll
/// to; and it has room while no counter is at its end.
pub proof fn law_window_knows_itself(state: RootState)
    requires
        state.model.timeline.len() <= usize::MAX,
    ensures
        state.is_busy() <==> state.model.runtime_status == RuntimeStatus::Running
            || state.model.runtime_status == RuntimeStatus::WaitingForApproval,
        state.model.timeline.len() == 0 ==> state.bottom() is None,
        state.model.timeline.len() > 0 ==> (state.bottom() matches Some(row) && row
            == state.model.timeline.len() - 1),
        state.has_room() <==> state.model.next_timeline_id < usize::MAX && state.next_id < u64::MAX
            && state.next_turn < usize::MAX && state.stream_token < usize::MAX,
{
}

/// A chosen directory becomes the project in every state, and is shown; what is no directory, or no
/// path, leaves the project as it was and says why. Nothing else changes.
pub proof fn law_project_is_chosen(state: RootState, path: Seq<char>)
    ensures
        ({
            let (next, shown) = crate::ui::state::project_chosen(state, PathView::Directory(path));
            &&& next.model.cwd == path
            &&& next.model.status_message == "Project selected"@
            &&& shown == Some(path)
            &&& with_words(
                RootState { model: ModelView { cwd: path, ..state.model }, ..state },
                "Project selected"@,
            ) == next
        }),
        crate::ui::state::project_chosen(state, PathView::NotDirectory(path)) == (
            with_words(state, "Not a directory: "@ + path),
            None::<Seq<char>>,
        ),
        crate::ui::state::project_chosen(state, PathView::Invalid(path)) == (
            with_words(state, "Project path is invalid: "@ + path),
            None::<Seq<char>>,
        ),
{
}

/// A prompt that a connected window takes goes to the live thread, in the directory that was chosen
/// last, and carries the very words of the prompt, under the next number.
pub proof fn law_prompt_reaches_the_chosen_project(
    state: RootState,
    path: Seq<char>,
    prompt: Seq<char>,
    thread_id: Seq<char>,
)
    requires
        state.connected,
        state.live_thread_id == Some(thread_id),
        state.model.runtime_status == RuntimeStatus::Idle || state.model.runtime_status
            == RuntimeStatus::Disconnected,
        !crate::text::is_blank(prompt),
    ensures
        ({
            let chosen = crate::ui::state::project_chosen(state, PathView::Directory(path)).0;
            let (next, outcome) = crate::ui::state::prompted(chosen, prompt);
            &&& outcome matches PromptView::Live(Some(outgoing)) && {
                &&& is_request(outgoing, state.next_id, "turn/start"@, PendingRequest::TurnStart)
                &&& crate::laws::meaning::param(outgoing.message, "cwd"@) == Some(path)
                &&& crate::laws::meaning::param(outgoing.message, "threadId"@) == Some(thread_id)
                &&& first_input(outgoing.message).text_at("text"@) == Some(prompt)
                &&& first_input(outgoing.message).text_at("type"@) == Some("text"@)
            }
            &&& next.model.cwd == path
        }),
{
    lemma_live_prompt(
        crate::ui::state::project_chosen(state, PathView::Directory(path)).0,
        prompt,
        thread_id,
    );
}

proof fn lemma_live_prompt(state: RootState, prompt: Seq<char>, thread_id: Seq<char>)
    requires
        state.connected,
        state.live_thread_id == Some(thread_id),
        !state.is_busy(),
        !crate::text::is_blank(prompt),
    ensures
        ({
            let (next, outcome) = crate::ui::state::prompted(state, prompt);
            &&& outcome matches PromptView::Live(Some(outgoing)) && {
                &&& is_request(outgoing, state.next_id, "turn/start"@, PendingRequest::TurnStart)
                &&& crate::laws::meaning::param(outgoing.message, "cwd"@) == Some(state.model.cwd)
                &&& crate::laws::meaning::param(outgoing.message, "threadId"@) == Some(thread_id)
                &&& first_input(outgoing.message).text_at("text"@) == Some(prompt)
                &&& first_input(outgoing.message).text_at("type"@) == Some("text"@)
            }
            &&& next == with_words(
                RootState {
                    next_id: (state.next_id + 1) as u64,
                    model: ModelView { runtime_status: RuntimeStatus::Running, ..state.model },
                    ..state
                },
                "Sent prompt to Codex app-server"@,
            )
        }),
{
    let params = crate::runtime::app_server::turn_start_params(thread_id, state.model.cwd, prompt);
    crate::laws::protocol::lemma_field_names();
    crate::laws::protocol::law_requests_numbered(state.next_id, "turn/start"@, params);
    crate::laws::meaning::law_params_say_what_is_asked(
        thread_id,
        state.model.cwd,
        prompt,
        thread_id,
    );
}

/// What a prompt leads to: nothing while a turn is under way, a reproof if it is blank, a request in
/// a connected window with a thread, a word of patience in one without, and a script elsewhere. It
/// changes nothing but what is named here.
pub proof fn law_prompts_lead_on(state: RootState, prompt: Seq<char>)
    requires
        state.stream_token < usize::MAX,
        state.next_turn < usize::MAX,
    ensures
        ({
            let (next, outcome) = crate::ui::state::prompted(state, prompt);
            let busy = state.model.runtime_status == RuntimeStatus::Running
                || state.model.runtime_status == RuntimeStatus::WaitingForApproval;
            let blank = crate::text::is_blank(prompt);
            &&& busy ==> next == state && outcome == PromptView::Ignored
            &&& !busy && blank ==> next == with_words(state, "Type a message before sending"@)
                && outcome == PromptView::Refused
            &&& !busy && !blank && state.connected && state.live_thread_id is None ==> next
                == with_words(state, "Codex is still starting; try again in a moment"@) && outcome
                == PromptView::Live(None)
            &&& !busy && !blank && state.connected && state.live_thread_id is Some ==> {
                &&& outcome matches PromptView::Live(message)
                &&& message is Some
                &&& next == with_words(
                    RootState {
                        next_id: (state.next_id + 1) as u64,
                        model: ModelView { runtime_status: RuntimeStatus::Running, ..state.model },
                        ..state
                    },
                    "Sent prompt to Codex app-server"@,
                )
            }
            &&& !busy && !blank && !state.connected ==> {
                &&& outcome matches PromptView::Scripted { token, script }
                &&& token == state.stream_token + 1
                &&& script[0].event == EventView::RuntimeReady { cwd: state.model.cwd }
                &&& script[2].event == EventView::UserMessageSubmitted { prompt }
                &&& script[3].event == EventView::TurnStarted {
                    id: "fake-turn"@ + "-"@ + crate::text::decimal((state.next_turn + 1) as nat),
                }
                &&& script == crate::runtime::fake::scripted(
                    (state.next_turn + 1) as nat,
                    state.model.cwd,
                    prompt,
                )
                &&& next == RootState {
                    stream_token: (state.stream_token + 1) as usize,
                    next_turn: (state.next_turn + 1) as usize,
                    ..state
                }
            }
        }),
{
    if let Some(thread_id) = state.live_thread_id {
        if state.connected && !state.is_busy() && !crate::text::is_blank(prompt) {
            lemma_live_prompt(state, prompt, thread_id);
        }
    }
}

/// A script is played in the directory that was chosen last.
pub proof fn law_script_runs_in_the_chosen_project(
    state: RootState,
    path: Seq<char>,
    prompt: Seq<char>,
)
    requires
        !state.connected,
        state.model.runtime_status == RuntimeStatus::Idle || state.model.runtime_status
            == RuntimeStatus::Disconnected,
        !crate::text::is_blank(prompt),
    ensures
        ({
            let chosen = crate::ui::state::project_chosen(state, PathView::Directory(path)).0;
            crate::ui::state::prompted(chosen, prompt).1 matches PromptView::Scripted {
                script,
                ..
            } && script[0].event == EventView::RuntimeReady { cwd: path } && script[2].event
                == EventView::UserMessageSubmitted { prompt }
        }),
{
}

/// The waits of a script are the same for every turn, project and prompt.
pub proof fn law_scripts_keep_time(turn: nat, project_path: Seq<char>, prompt: Seq<char>)
    ensures
        ({
            let script = crate::runtime::fake::scripted(turn, project_path, prompt);
            &&& script.len() == 18
            &&& script.map_values(|step: crate::runtime::fake::StepView| step.delay) == seq![
                0nat,
                0,
                0,
                80,
                140,
                120,
                160,
                180,
                140,
                140,
                180,
                120,
                100,
                80,
                160,
                180,
                600,
                140,
            ]
        }),
{
}

/// A step of the current stream does to the model what its event does, and to nothing else; a step
/// of another stream does nothing.
pub proof fn law_steps_are_played(state: RootState, token: usize, event: EventView)
    ensures
        token == state.stream_token ==> crate::ui::state::played(state, token, event)
            == (RootState { model: crate::reducer::reduced(state.model, event), ..state }),
        token != state.stream_token ==> crate::ui::state::played(state, token, event) == state,
{
}

/// Breaking off a turn without an app-server leaves no approval pending, whatever was pending, and
/// the runtime idle; the transcript and all else stays, and nothing is sent.
pub proof fn law_interrupt_stops_the_script(state: RootState)
    requires
        !state.connected,
        state.stream_token < usize::MAX,
    ensures
        ({
            let (next, message) = crate::ui::state::interrupted(state);
            &&& message is None
            &&& next.model.pending_approvals.len() == 0
            &&& next.model.runtime_status == RuntimeStatus::Idle
            &&& next.model.turn_status == "Interrupted"@
            &&& next.model.status_message == "Fake stream interrupted by user"@
            &&& next.stream_token == state.stream_token + 1
            &&& next == RootState {
                stream_token: next.stream_token,
                model: ModelView {
                    pending_approvals: next.model.pending_approvals,
                    runtime_status: next.model.runtime_status,
                    turn_status: next.model.turn_status,
                    status_message: next.model.status_message,
                    ..state.model
                },
                ..state
            }
        }),
{
}

/// Breaking off a turn of the app-server asks it to stop that turn of that thread, and changes
/// nothing but the numbers and the status message. Without a live turn nothing is sent.
pub proof fn law_interrupt_asks_the_server(state: RootState)
    requires
        state.connected,
        state.stream_token < usize::MAX,
    ensures
        ({
            let (next, message) = crate::ui::state::interrupted(state);
            let stopped = RootState { stream_token: (state.stream_token + 1) as usize, ..state };
            match (state.live_thread_id, state.live_turn_id) {
                (Some(thread_id), Some(turn_id)) => {
                    &&& message matches Some(outgoing) && {
                        &&& is_request(
                            outgoing,
                            state.next_id,
                            "turn/interrupt"@,
                            PendingRequest::TurnInterrupt,
                        )
                        &&& crate::laws::meaning::param(outgoing.message, "threadId"@) == Some(
                            thread_id,
                        )
                        &&& crate::laws::meaning::param(outgoing.message, "turnId"@) == Some(
                            turn_id,
                        )
                    }
                    &&& next == with_words(
                        RootState { next_id: (state.next_id + 1) as u64, ..stopped },
                        "Interrupt requested"@,
                    )
                },
                _ => message is None && next == with_words(
                    stopped,
                    "No live Codex turn to interrupt"@,
                ),
            }
        }),
{
    crate::laws::protocol::lemma_field_names();
    if let (Some(thread_id), Some(turn_id)) = (state.live_thread_id, state.live_turn_id) {
        let params = crate::runtime::app_server::turn_interrupt_params(thread_id, turn_id);
        crate::laws::protocol::law_requests_numbered(state.next_id, "turn/interrupt"@, params);
        crate::laws::meaning::law_params_say_what_is_asked(
            thread_id,
            state.model.cwd,
            thread_id,
            turn_id,
        );
    }
}

/// A long transcript shows ten thousand rows and ends any stream; beyond the model nothing else
/// changes.
pub proof fn law_long_transcript_is_shown(state: RootState)
    requires
        state.stream_token < usize::MAX,
    ensures
        ({
            let next = crate::ui::state::long_transcript(state);
            &&& next.model == crate::reducer::seeded(state.model, 10_000)
            &&& next.model.timeline.len() == 10_000
            &&& next.stream_token == state.stream_token + 1
            &&& next == RootState {
                model: next.model,
                stream_token: next.stream_token,
                ..state
            }
        }),
{
}

/// A window that connects forgets the threads, turns, requests and approvals of an earlier
/// app-server, and introduces itself under the next number.
pub proof fn law_connecting_begins_anew(state: RootState)
    ensures
        ({
            let (next, message) = crate::ui::state::connected(state);
            &&& message matches Some(outgoing) && is_request(
                outgoing,
                state.next_id,
                "initialize"@,
                PendingRequest::Initialize,
            ) && outgoing.message.field("params"@) == Some(
                crate::runtime::app_server::initialize_params(),
            )
            &&& next == with_words(
                RootState {
                    connected: true,
                    live_thread_id: None,
                    live_turn_id: None,
                    pending_requests: Map::empty(),
                    pending_server_approvals: Map::empty(),
                    next_id: (state.next_id + 1) as u64,
                    ..state
                },
                "Starting Codex app-server"@,
            )
        }),
{
    crate::laws::protocol::lemma_field_names();
    crate::laws::protocol::law_requests_numbered(
        state.next_id,
        "initialize"@,
        crate::runtime::app_server::initialize_params(),
    );
}

/// A message goes out if and only if there is an app-server, and a request only if it has a number;
/// it goes out as it is. Where it does not, the status message says why, and nothing else changes.
pub proof fn law_messages_go_out(
    state: RootState,
    message: JsonView,
    pending: PendingRequest,
    delivery: DeliveryView,
)
    ensures
        ({
            let number = match message.field("id"@) {
                Some(JsonView::Number(NumberView::Integer(n))) => if 0 <= n <= u64::MAX {
                    Some(n as u64)
                } else {
                    None
                },
                _ => None,
            };
            let result = crate::ui::state::requesting(state, message, pending);
            match number {
                None => result == (
                    with_words(state, "Internal error: app-server request missing id"@),
                    None::<OutgoingView>,
                ),
                Some(id) => if state.connected {
                    result == (
                        state,
                        Some(
                            OutgoingView {
                                message,
                                delivery: DeliveryView::Request { id, pending },
                            },
                        ),
                    )
                } else {
                    result == (
                        with_words(state, "Codex app-server is not connected"@),
                        None::<OutgoingView>,
                    )
                },
            }
        }),
        state.connected ==> crate::ui::state::sending(state, message, delivery) == (
            state,
            Some(OutgoingView { message, delivery }),
        ),
        !state.connected ==> crate::ui::state::sending(state, message, delivery) == (
            with_words(state, "Codex app-server is not connected"@),
            None::<OutgoingView>,
        ),
{
}

/// A notification that stands for an event does to the model what that event does. A begun turn
/// becomes the live one, and a completed one leaves none. The window scrolls to its last row.
/// Nothing else changes, and nothing is sent; what stands for no event changes nothing at all.
pub proof fn law_notifications_change_the_model(state: RootState, notification: JsonView)
    ensures
        ({
            let step = crate::ui::state::notified(state, notification);
            &&& step.outgoing.len() == 0
            &&& match crate::runtime::app_server::notification_event(notification) {
                None => step.state == state && step.scroll_to is None,
                Some(event) => {
                    &&& step.state.model == crate::reducer::reduced(state.model, event)
                    &&& step.scroll_to == step.state.bottom()
                    &&& event matches EventView::TurnStarted { id } ==> step.state.live_turn_id
                        == Some(id)
                    &&& event is TurnCompleted ==> step.state.live_turn_id is None
                    &&& !(event is TurnStarted) && !(event is TurnCompleted)
                        ==> step.state.live_turn_id == state.live_turn_id
                    &&& step.state == RootState {
                        model: step.state.model,
                        live_turn_id: step.state.live_turn_id,
                        ..state
                    }
                },
            }
        }),
{
}

/// Whether a notification brings text.
pub open spec fn brings_text(notification: JsonView) -> bool {
    ||| notification.text_at("method"@) == Some("item/agentMessage/delta"@)
    ||| notification.text_at("method"@) == Some("item/plan/delta"@)
    ||| notification.text_at("method"@) == Some("item/reasoningText/delta"@)
    ||| notification.text_at("method"@) == Some("item/reasoningSummaryText/delta"@)
    ||| notification.text_at("method"@) == Some("item/commandExecution/outputDelta"@)
}

/// The event of a text notification brings that text for that item.
proof fn lemma_text_event(notification: JsonView, item_id: Seq<char>, delta: Seq<char>) -> (event:
    EventView)
    requires
        brings_text(notification),
        crate::laws::meaning::param(notification, "itemId"@) == Some(item_id),
        crate::laws::meaning::param(notification, "delta"@) == Some(delta),
    ensures
        crate::runtime::app_server::notification_event(notification) == Some(event),
        event == (EventView::AgentMessageDelta { item_id, delta }) || event == (
        EventView::PlanDelta { item_id, delta }) || event == (EventView::ReasoningDelta {
            item_id,
            delta,
        }) || event == (EventView::CommandOutputDelta { item_id, delta }),
{
    crate::laws::meaning::law_text_notifications_name_their_item(notification, item_id, delta);
    crate::runtime::app_server::notification_event(notification)->0
}

/// The text of a notification is shown behind the body of the first row of its item, wherever that
/// row stands. Every other row stays as it was.
pub proof fn law_notified_text_is_put_behind(
    state: RootState,
    notification: JsonView,
    item_id: Seq<char>,
    delta: Seq<char>,
    place: int,
)
    requires
        brings_text(notification),
        crate::laws::meaning::param(notification, "itemId"@) == Some(item_id),
        crate::laws::meaning::param(notification, "delta"@) == Some(delta),
        0 <= place < state.model.timeline.len(),
        state.model.timeline[place].id == item_id,
        forall|i: int| 0 <= i < place ==> (#[trigger] state.model.timeline[i]).id != item_id,
    ensures
        ({
            let before = state.model.timeline;
            let after = crate::ui::state::received(
                state,
                WireView::Notification(notification),
            ).state.model.timeline;
            &&& after[place].body == before[place].body + delta
            &&& after[place].id == item_id
            &&& after.len() == before.len()
            &&& forall|i: int|
                0 <= i < before.len() && i != place ==> (#[trigger] after[i]) == before[i]
        }),
{
    let event = lemma_text_event(notification, item_id, delta);
    law_notifications_change_the_model(state, notification);
    crate::laws::events::law_text_is_put_behind(state.model, event, item_id, delta, place);
}

/// The text of a notification for an item that has no row yet is shown in a new row behind the
/// others, which stay as they were.
pub proof fn law_notified_text_begins_a_row(
    state: RootState,
    notification: JsonView,
    item_id: Seq<char>,
    delta: Seq<char>,
)
    requires
        brings_text(notification),
        crate::laws::meaning::param(notification, "itemId"@) == Some(item_id),
        crate::laws::meaning::param(notification, "delta"@) == Some(delta),
        forall|i: int|
            0 <= i < state.model.timeline.len() ==> (#[trigger] state.model.timeline[i]).id
                != item_id,
    ensures
        ({
            let before = state.model.timeline;
            let after = crate::ui::state::received(
                state,
                WireView::Notification(notification),
            ).state.model.timeline;
            &&& after.len() == before.len() + 1
            &&& after.take(before.len() as int) == before
            &&& after[before.len() as int].id == item_id
            &&& after[before.len() as int].body == delta
        }),
{
    let event = lemma_text_event(notification, item_id, delta);
    law_notifications_change_the_model(state, notification);
    crate::laws::events::law_text_begins_an_item(state.model, event, item_id, delta);
}

/// What comes from the app-server is taken in as what it is. A malformed line is told and changes
/// nothing else. A broken connection is told, and ends the connection and what waited on it.
pub proof fn law_events_are_taken_in(
    state: RootState,
    message: JsonView,
    text: Seq<char>,
)
    ensures
        crate::ui::state::received(state, WireView::Response(message))
            == crate::ui::state::answered(state, message),
        crate::ui::state::received(state, WireView::ServerRequest(message))
            == crate::ui::state::requested(state, message),
        crate::ui::state::received(state, WireView::Notification(message))
            == crate::ui::state::notified(state, message),
        ({
            let step = crate::ui::state::received(state, WireView::MalformedLine(text));
            &&& step.state == with_words(state, "Malformed app-server line: "@ + text)
            &&& step.outgoing.len() == 0 && step.scroll_to is None
        }),
        ({
            let step = crate::ui::state::received(state, WireView::IoError(text));
            &&& !step.state.connected
            &&& step.state == with_words(
                RootState {
                    connected: false,
                    pending_server_approvals: Map::empty(),
                    ..state
                },
                "App-server IO error: "@ + text,
            )
            &&& step.outgoing.len() == 0 && step.scroll_to is None
        }),
{
}

/// A request for an approval is noted with its method, its parameters and its identifier, and the
/// model shows it. No other noted request changes, nothing is sent, and the window scrolls to the
/// new row.
pub proof fn law_requests_are_noted(
    state: RootState,
    request: JsonView,
    method: Seq<char>,
    id: Seq<char>,
)
    requires
        request.text_at("method"@) == Some(method),
        method == "item/commandExecution/requestApproval"@ || method
            == "item/fileChange/requestApproval"@ || method == "item/permissions/requestApproval"@,
        request.field("id"@) matches Some(request_id)
            && crate::runtime::app_server::approval_id(request_id) == Some(id),
    ensures
        ({
            let step = crate::ui::state::requested(state, request);
            let noted = step.state.pending_server_approvals;
            &&& noted.contains_key(id)
            &&& noted[id].method == method
            &&& noted[id].params == request.field_or_null("params"@)
            &&& Some(noted[id].request_id) == request.field("id"@)
            &&& noted == state.pending_server_approvals.insert(id, noted[id])
            &&& crate::runtime::app_server::request_event(request) matches Some(event)
                && step.state.model == crate::reducer::reduced(state.model, event)
            &&& step.state.model.pending_approvals.len() == state.model.pending_approvals.len() + 1
            &&& step.state.model.pending_approvals.last().id == id
            &&& step.state.model.timeline.last().id == id
            &&& step.state == RootState {
                model: step.state.model,
                pending_server_approvals: noted,
                ..state
            }
            &&& step.outgoing.len() == 0
            &&& step.scroll_to == step.state.bottom()
        }),
{
    crate::laws::protocol::law_asks_for_approval(request);
    let event = crate::runtime::app_server::request_event(request)->0;
    crate::laws::events::law_new_items_go_last(state.model, event);
}

/// A request that asks for no approval is refused under its own identifier, with the code for an
/// unknown method and words that name the method, and changes nothing but the status message.
pub proof fn law_refusals_name_the_method(state: RootState, request: JsonView)
    requires
        state.connected,
        crate::runtime::app_server::request_event(request) is None,
    ensures
        ({
            let step = crate::ui::state::requested(state, request);
            let words = "Unsupported app-server request: "@ + (match request.text_at("method"@) {
                Some(method) => method,
                None => "unknown"@,
            });
            let refusal = step.outgoing[0].message;
            &&& step.outgoing.len() == 1
            &&& refusal.field("id"@) == Some(request.field_or_null("id"@))
            &&& refusal.field("error"@) matches Some(error) && error.text_at("message"@) == Some(
                words,
            ) && error.field("code"@) == Some(JsonView::Number(NumberView::Integer(-32601)))
            &&& refusal.field("result"@) is None && refusal.field("method"@) is None
            &&& step.outgoing[0].delivery == DeliveryView::Refusal
            &&& step.state == with_words(state, words)
            &&& step.scroll_to is None
        }),
{
    crate::laws::protocol::lemma_field_names();
    reveal_strlit("code");
    reveal_strlit("message");
    assert("code"@.len() == 4 && "message"@.len() == 7);
}

/// From the request of the app-server to the answer it gets: an approval that a connected window
/// takes in and the user answers is answered under the identifier of its request, with the decision
/// of the user, and for permissions with the very permissions that the request asked for, or with
/// none.
pub proof fn law_requests_get_their_answer(
    state: RootState,
    request: JsonView,
    request_id: JsonView,
    method: Seq<char>,
    id: Seq<char>,
    approved: bool,
)
    requires
        state.connected,
        request.field("id"@) == Some(request_id),
        crate::runtime::app_server::approval_id(request_id) == Some(id),
        request.text_at("method"@) == Some(method),
        method == "item/commandExecution/requestApproval"@ || method
            == "item/fileChange/requestApproval"@ || method == "item/permissions/requestApproval"@,
    ensures
        ({
            let asked = crate::ui::state::requested(state, request).state;
            let (next, message) = crate::ui::state::resolved(asked, id, approved);
            &&& message matches Some(outgoing) && {
                let answer = outgoing.message;
                let result = answer.field_or_null("result"@);
                &&& answer.field("id"@) == Some(request_id)
                &&& answer.has("result"@) && !answer.has("error"@) && !answer.has("method"@)
                &&& method != "item/permissions/requestApproval"@ ==> result.text_at("decision"@)
                    == Some(
                    if approved {
                        "accept"@
                    } else {
                        "decline"@
                    },
                )
                &&& method == "item/permissions/requestApproval"@ ==> {
                    &&& result.text_at("scope"@) == Some("turn"@)
                    &&& approved && request.field_or_null("params"@).has("permissions"@)
                        ==> result.field("permissions"@) == request.field_or_null(
                        "params"@,
                    ).field("permissions"@)
                    &&& !(approved && request.field_or_null("params"@).has("permissions"@))
                        ==> result.field("permissions"@) == Some(JsonView::Object(Map::empty()))
                }
                &&& outgoing.delivery matches DeliveryView::Approval {
                    approval_id,
                    approved: decided,
                    pending,
                } && approval_id == id && decided == approved && pending.method == method
                    && pending.request_id == request_id
            }
            &&& next.model == asked.model
        }),
{
    crate::laws::protocol::lemma_field_names();
    law_requests_are_noted(state, request, method, id);
    let params = request.field_or_null("params"@);
    if method == "item/permissions/requestApproval"@ {
        crate::laws::meaning::law_permission_answers(params, approved);
    } else {
        crate::laws::meaning::law_decisions_are_accept_or_decline(method, params);
    }
}

/// The user's answer to an approval, in each case: one that no app-server asked for is resolved at
/// once; one that cannot be answered is forgotten and told; without a connection it stays; else the
/// answer goes out and only this one leaves the list.
pub proof fn law_answers_of_the_user(state: RootState, id: Seq<char>, approved: bool)
    ensures
        ({
            let (next, message) = crate::ui::state::resolved(state, id, approved);
            let noted = state.pending_server_approvals;
            let rest = RootState { pending_server_approvals: noted.remove(id), ..state };
            let result = crate::runtime::app_server::approval_result(
                noted[id].method,
                noted[id].params,
                approved,
            );
            &&& !noted.contains_key(id) ==> message is None && next == RootState {
                model: crate::reducer::reduced(
                    state.model,
                    EventView::ApprovalResolved { id, approved },
                ),
                ..state
            }
            &&& noted.contains_key(id) && result is None ==> message is None && next == with_words(
                rest,
                "Cannot resolve unsupported approval: "@ + noted[id].method,
            )
            &&& noted.contains_key(id) && result is Some && !state.connected ==> message is None
                && next == with_words(state, "Codex app-server is not connected"@)
            &&& noted.contains_key(id) && result is Some && state.connected ==> {
                &&& next == rest
                &&& message matches Some(outgoing) && outgoing.message.field("id"@) == Some(
                    noted[id].request_id,
                ) && outgoing.message.field("result"@) == result && outgoing.delivery
                    == DeliveryView::Approval { approval_id: id, approved, pending: noted[id] }
            }
        }),
{
    crate::laws::protocol::lemma_field_names();
}

/// What a message that was handed over, or could not be, leaves behind.
pub proof fn law_handing_over(
    state: RootState,
    id: u64,
    pending: PendingRequest,
    approval_id: Seq<char>,
    approved: bool,
    approval: PendingView,
    error: Seq<char>,
)
    ensures
        ({
            let request = DeliveryView::Request { id, pending };
            let notice = DeliveryView::Notification;
            let answer = DeliveryView::Approval { approval_id, approved, pending: approval };
            let refusal = DeliveryView::Refusal;
            let good = Ok::<(), Seq<char>>(());
            let bad = Err::<(), Seq<char>>(error);
            &&& crate::ui::state::delivered(state, request, good) == RootState {
                pending_requests: state.pending_requests.insert(id, pending),
                ..state
            }
            &&& pending is Initialize || pending is ThreadStart ==> crate::ui::state::delivered(
                state,
                request,
                bad,
            ) == with_words(state, "Could not send app-server request: "@ + error)
            &&& pending is TurnStart || pending is TurnInterrupt ==> crate::ui::state::delivered(
                state,
                request,
                bad,
            ) == state
            &&& crate::ui::state::delivered(state, notice, good) == state
            &&& crate::ui::state::delivered(state, notice, bad) == with_words(
                state,
                "Could not send app-server notification: "@ + error,
            )
            &&& crate::ui::state::delivered(state, answer, good) == with_words(
                RootState {
                    model: crate::reducer::reduced(
                        state.model,
                        EventView::ApprovalResolved { id: approval_id, approved },
                    ),
                    ..state
                },
                if approved {
                    "Approval sent to Codex"@
                } else {
                    "Denial sent to Codex"@
                },
            )
            &&& crate::ui::state::delivered(state, answer, bad) == with_words(
                RootState {
                    pending_server_approvals: state.pending_server_approvals.insert(
                        approval_id,
                        approval,
                    ),
                    ..state
                },
                "Could not send app-server response: "@ + error,
            )
            &&& crate::ui::state::delivered(state, refusal, good) == state
            &&& crate::ui::state::delivered(state, refusal, bad) == state
        }),
{
}

/// What an answer of the app-server leads to, by the request that it is for. It is for the request
/// under its number, which waits no longer. An error is told and leads to nothing else. The end of
/// the introduction is followed by the notification and the request for a thread in the project. A
/// thread becomes the live and active one, a turn the live one.
pub proof fn law_answers_lead_on(state: RootState, response: JsonView, number: u64)
    requires
        response.field("id"@) == Some(JsonView::Number(NumberView::Integer(number as int))),
    ensures
        ({
            let step = crate::ui::state::answered(state, response);
            let rest = RootState {
                pending_requests: state.pending_requests.remove(number),
                ..state
            };
            let waits = state.pending_requests.contains_key(number);
            let pending = state.pending_requests[number];
            let result = response.field_or_null("result"@);
            &&& step.scroll_to is None
            &&& response.field("error"@) matches Some(error) ==> step.outgoing.len() == 0
                && step.state == with_words(
                rest,
                "App-server error: "@ + crate::codec::written(error),
            )
            &&& response.field("error"@) is None ==> {
                &&& !waits ==> step.outgoing.len() == 0 && step.state == with_words(
                    rest,
                    "Received app-server response"@,
                )
                &&& waits && pending is TurnInterrupt ==> step.outgoing.len() == 0 && step.state
                    == with_words(rest, "Codex interrupt accepted"@)
                &&& waits && pending is TurnStart ==> step.outgoing.len() == 0 && step.state
                    == with_words(
                    RootState {
                        live_turn_id: match result.field("turn"@) {
                            Some(turn) => turn.text_at("id"@),
                            None => state.live_turn_id,
                        },
                        ..rest
                    },
                    "Codex turn started"@,
                )
                &&& waits && pending is ThreadStart ==> {
                    &&& step.outgoing.len() == 0
                    &&& result.field("thread"@) is None ==> step.state == with_words(
                        rest,
                        "Codex app-server ready"@,
                    )
                    &&& result.field("thread"@) matches Some(thread) ==> {
                        let id = match thread.text_at("id"@) {
                            Some(text) => text,
                            None => "thread"@,
                        };
                        step.state == with_words(
                            RootState {
                                live_thread_id: Some(id),
                                model: crate::reducer::reduced(
                                    state.model,
                                    EventView::ThreadStarted {
                                        id,
                                        title: crate::runtime::app_server::thread_title(thread),
                                    },
                                ),
                                ..rest
                            },
                            "Codex app-server ready"@,
                        )
                    }
                }
                &&& waits && pending is Initialize && state.connected ==> {
                    &&& step.outgoing.len() == 2
                    &&& step.outgoing[0].message.text_at("method"@) == Some("initialized"@)
                    &&& !step.outgoing[0].message.has("id"@)
                    &&& step.outgoing[0].delivery == DeliveryView::Notification
                    &&& is_request(
                        step.outgoing[1],
                        state.next_id,
                        "thread/start"@,
                        PendingRequest::ThreadStart,
                    )
                    &&& crate::laws::meaning::param(step.outgoing[1].message, "cwd"@) == Some(
                        state.model.cwd,
                    )
                    &&& crate::laws::meaning::param(step.outgoing[1].message, "sandbox"@) == Some(
                        "workspaceWrite"@,
                    )
                    &&& step.state == with_words(
                        RootState { next_id: (state.next_id + 1) as u64, ..rest },
                        "Codex app-server initialized"@,
                    )
                }
            }
        }),
{
    crate::laws::protocol::lemma_field_names();
    let params = crate::runtime::app_server::thread_start_params(state.model.cwd);
    crate::laws::protocol::law_requests_numbered(state.next_id, "thread/start"@, params);
    crate::laws::meaning::law_params_say_what_is_asked(
        state.model.cwd,
        state.model.cwd,
        state.model.cwd,
        state.model.cwd,
    );
}

/// An answer without a number is for no request: it is told, and leads to nothing else.
pub proof fn law_answers_without_a_number(state: RootState, response: JsonView)
    requires
        response.field("id"@) matches Some(id) ==> id.as_unsigned() is None,
    ensures
        ({
            let step = crate::ui::state::answered(state, response);
            &&& step.outgoing.len() == 0 && step.scroll_to is None
            &&& step.state == with_words(
                state,
                match response.field("error"@) {
                    Some(error) => "App-server error: "@ + crate::codec::written(error),
                    None => "Received app-server response"@,
                },
            )
        }),
{
}

/// Saying something changes nothing but the status message, and an event nothing but the model.
pub proof fn law_words_and_events_touch_the_model(
    state: RootState,
    words: Seq<char>,
    event: EventView,
)
    ensures
        state.says(words) == with_words(state, words),
        state.reduces(event) == (RootState {
            model: crate::reducer::reduced(state.model, event),
            ..state
        }),
{
}

/// An answer to a request carries its identifier and its result, and a refusal its identifier, its
/// code and its words. Neither carries anything else.
pub proof fn law_answers_carry_their_request(
    request_id: JsonView,
    result: JsonView,
    code: int,
    words: Seq<char>,
)
    ensures
        ({
            let answer = crate::ui::state::response_message(request_id, result);
            &&& answer.field("id"@) == Some(request_id)
            &&& answer.field("result"@) == Some(result)
            &&& forall|key: Seq<char>| #[trigger]
                answer.has(key) ==> key == "id"@ || key == "result"@
        }),
        ({
            let refusal = crate::ui::state::error_message(request_id, code, words);
            &&& refusal.field("id"@) == Some(request_id)
            &&& refusal.field("error"@) matches Some(error) && error.field("code"@) == Some(
                JsonView::Number(NumberView::Integer(code)),
            ) && error.text_at("message"@) == Some(words) && forall|key: Seq<char>| #[trigger]
                error.has(key) ==> key == "code"@ || key == "message"@
            &&& forall|key: Seq<char>| #[trigger]
                refusal.has(key) ==> key == "id"@ || key == "error"@
        }),
{
    crate::laws::protocol::lemma_field_names();
    reveal_strlit("code");
    reveal_strlit("message");
    assert("code"@.len() == 4 && "message"@.len() == 7);
}

/// A prompt for the live thread is sent as it is, in the current directory, whatever it says and
/// whatever the runtime does; without a connection it is only counted. The runtime runs then.
pub proof fn law_live_prompts(state: RootState, prompt: Seq<char>)
    ensures
        ({
            let (next, message) = crate::ui::state::live_turn(state, prompt);
            match state.live_thread_id {
                None => message is None && next == with_words(
                    state,
                    "Codex is still starting; try again in a moment"@,
                ),
                Some(thread_id) => {
                    &&& next == with_words(
                        RootState {
                            next_id: (state.next_id + 1) as u64,
                            model: ModelView {
                                runtime_status: RuntimeStatus::Running,
                                ..state.model
                            },
                            ..state
                        },
                        "Sent prompt to Codex app-server"@,
                    )
                    &&& !state.connected ==> message is None
                    &&& state.connected ==> (message matches Some(outgoing) && {
                        &&& is_request(
                            outgoing,
                            state.next_id,
                            "turn/start"@,
                            PendingRequest::TurnStart,
                        )
                        &&& crate::laws::meaning::param(outgoing.message, "cwd"@) == Some(
                            state.model.cwd,
                        )
                        &&& crate::laws::meaning::param(outgoing.message, "threadId"@) == Some(
                            thread_id,
                        )
                        &&& first_input(outgoing.message).text_at("text"@) == Some(prompt)
                        &&& first_input(outgoing.message).text_at("type"@) == Some("text"@)
                    })
                },
            }
        }),
{
    if let Some(thread_id) = state.live_thread_id {
        let params = crate::runtime::app_server::turn_start_params(
            thread_id,
            state.model.cwd,
            prompt,
        );
        crate::laws::protocol::lemma_field_names();
        crate::laws::protocol::law_requests_numbered(state.next_id, "turn/start"@, params);
        crate::laws::meaning::law_params_say_what_is_asked(
            thread_id,
            state.model.cwd,
            prompt,
            thread_id,
        );
    }
}

/// A scripted turn takes the next number and the next stream, and is the script of that number in
/// the current directory, whatever the prompt says. Nothing else changes.
pub proof fn law_scripted_prompts(state: RootState, prompt: Seq<char>)
    requires
        state.stream_token < usize::MAX,
        state.next_turn < usize::MAX,
    ensures
        ({
            let (next, outcome) = crate::ui::state::fake_turn(state, prompt);
            &&& outcome matches PromptView::Scripted { token, script }
            &&& token == state.stream_token + 1
            &&& script == crate::runtime::fake::scripted(
                (state.next_turn + 1) as nat,
                state.model.cwd,
                prompt,
            )
            &&& next.stream_token == token && next.next_turn == state.next_turn + 1
            &&& next == RootState {
                stream_token: next.stream_token,
                next_turn: next.next_turn,
                ..state
            }
        }),
{
}

/// Without a connection a stop is only counted, an answered introduction leads to no message, and a
/// request that cannot be met is told but not refused.
pub proof fn law_unconnected_leftovers(
    state: RootState,
    response: JsonView,
    request: JsonView,
    number: u64,
)
    requires
        !state.connected,
        response.field("id"@) == Some(JsonView::Number(NumberView::Integer(number as int))),
        response.field("error"@) is None,
        state.pending_requests.contains_key(number),
        state.pending_requests[number] == PendingRequest::Initialize,
        crate::runtime::app_server::request_event(request) is None,
    ensures
        ({
            let (next, message) = crate::ui::state::live_interrupt(state);
            &&& message is None
            &&& state.live_thread_id is Some && state.live_turn_id is Some ==> next == with_words(
                RootState { next_id: (state.next_id + 1) as u64, ..state },
                "Interrupt requested"@,
            )
            &&& !(state.live_thread_id is Some && state.live_turn_id is Some) ==> next
                == with_words(state, "No live Codex turn to interrupt"@)
        }),
        ({
            let step = crate::ui::state::answered(state, response);
            &&& step.outgoing.len() == 0 && step.scroll_to is None
            &&& step.state == with_words(
                RootState {
                    next_id: (state.next_id + 1) as u64,
                    pending_requests: state.pending_requests.remove(number),
                    ..state
                },
                "Codex app-server is not connected"@,
            )
        }),
        ({
            let step = crate::ui::state::requested(state, request);
            &&& step.outgoing.len() == 0 && step.scroll_to is None
            &&& step.state == with_words(
                state,
                "Unsupported app-server request: "@ + (match request.text_at("method"@) {
                    Some(method) => method,
                    None => "unknown"@,
                }),
            )
        }),
{
    crate::laws::protocol::lemma_field_names();
    crate::laws::protocol::law_requests_numbered(
        state.next_id,
        "thread/start"@,
        crate::runtime::app_server::thread_start_params(state.model.cwd),
    );
    if let (Some(thread_id), Some(turn_id)) = (state.live_thread_id, state.live_turn_id) {
        crate::laws::protocol::law_requests_numbered(
            state.next_id,
            "turn/interrupt"@,
            crate::runtime::app_server::turn_interrupt_params(thread_id, turn_id),
        );
    }
}

/// The directory that was chosen last is the one in which a thread is asked for, once the
/// introduction is answered.
pub proof fn law_threads_start_in_the_chosen_project(
    state: RootState,
    path: Seq<char>,
    response: JsonView,
    number: u64,
)
    requires
        state.connected,
        state.pending_requests.contains_key(number),
        state.pending_requests[number] == PendingRequest::Initialize,
        response.field("id"@) == Some(JsonView::Number(NumberView::Integer(number as int))),
        response.field("error"@) is None,
    ensures
        ({
            let chosen = crate::ui::state::project_chosen(state, PathView::Directory(path)).0;
            let step = crate::ui::state::answered(chosen, response);
            &&& step.outgoing.len() == 2
            &&& step.outgoing[1].message.text_at("method"@) == Some("thread/start"@)
            &&& crate::laws::meaning::param(step.outgoing[1].message, "cwd"@) == Some(path)
        }),
{
    law_answers_lead_on(
        crate::ui::state::project_chosen(state, PathView::Directory(path)).0,
        response,
        number,
    );
}

/// An approval that the app-server asks for is pending until its answer has been handed over, and
/// neither pending nor noted afterwards; one whose answer could not be handed over is still both.
pub proof fn law_approvals_leave_when_answered(
    state: RootState,
    request: JsonView,
    method: Seq<char>,
    id: Seq<char>,
    approved: bool,
    error: Seq<char>,
)
    requires
        state.connected,
        request.text_at("method"@) == Some(method),
        method == "item/commandExecution/requestApproval"@ || method
            == "item/fileChange/requestApproval"@ || method == "item/permissions/requestApproval"@,
        request.field("id"@) matches Some(request_id)
            && crate::runtime::app_server::approval_id(request_id) == Some(id),
    ensures
        ({
            let asked = crate::ui::state::requested(state, request).state;
            let (waiting, message) = crate::ui::state::resolved(asked, id, approved);
            let sent = crate::ui::state::delivered(waiting, message->0.delivery, Ok(()));
            let kept = crate::ui::state::delivered(waiting, message->0.delivery, Err(error));
            &&& waiting.model.pending_approvals.last().id == id
            &&& forall|i: int|
                0 <= i < sent.model.pending_approvals.len() ==> (
                #[trigger] sent.model.pending_approvals[i]).id != id
            &&& !sent.pending_server_approvals.contains_key(id)
            &&& sent.model.runtime_status == RuntimeStatus::Running
            &&& kept.model.pending_approvals == asked.model.pending_approvals
            &&& kept.pending_server_approvals == asked.pending_server_approvals
        }),
{
    law_requests_are_noted(state, request, method, id);
    law_requests_get_their_answer(
        state,
        request,
        request.field("id"@)->0,
        method,
        id,
        approved,
    );
    let asked = crate::ui::state::requested(state, request).state;
    let (waiting, message) = crate::ui::state::resolved(asked, id, approved);
    let kept = crate::ui::state::delivered(waiting, message->0.delivery, Err(error));
    assert(kept.pending_server_approvals =~= asked.pending_server_approvals);
    crate::laws::timeline::law_resolved_gone(waiting.model, id, approved);
    let left = crate::reducer::reduced(
        waiting.model,
        EventView::ApprovalResolved { id, approved },
    ).pending_approvals;
    assert forall|i: int| 0 <= i < left.len() implies (#[trigger] left[i]).id != id by {
        assert(left.contains(left[i]));
    }
}

}
