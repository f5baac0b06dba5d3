//! The state behind the window as a value, and what each happening makes of it.
use vstd::prelude::*;

use crate::json::{JsonView, NumberView};
use crate::model::{ModelView, RuntimeStatus};
use crate::reducer::EventView;
use crate::runtime::app_server::WireView;
use crate::runtime::fake::StepView;
use crate::ui::approvals::PendingView;
use crate::ui::root::PendingRequest;

verus! {

/// What the window knows.
#[verifier::ext_equal]
pub struct RootState {
    pub connected: bool,
    pub live_thread_id: Option<Seq<char>>,
    pub live_turn_id: Option<Seq<char>>,
    pub model: ModelView,
    pub pending_requests: Map<u64, PendingRequest>,
    pub pending_server_approvals: Map<Seq<char>, PendingView>,
    pub next_id: u64,
    pub next_turn: usize,
    pub stream_token: usize,
}

/// What is still to be done once a message has been handed over.
#[verifier::ext_equal]
pub enum DeliveryView {
    Request { id: u64, pending: PendingRequest },
    Notification,
    Approval { approval_id: Seq<char>, approved: bool, pending: PendingView },
    Refusal,
}

/// A message for the app-server.
#[verifier::ext_equal]
pub struct OutgoingView {
    pub message: JsonView,
    pub delivery: DeliveryView,
}

/// What comes of a happening: the next state, the messages to send, and the row to scroll to.
#[verifier::ext_equal]
pub struct StepResult {
    pub state: RootState,
    pub outgoing: Seq<OutgoingView>,
    pub scroll_to: Option<usize>,
}

/// What comes of a prompt.
#[verifier::ext_equal]
pub enum PromptView {
    Ignored,
    Refused,
    Live(Option<OutgoingView>),
    Scripted { token: usize, script: Seq<StepView> },
}

/// What a path turned out to be.
#[verifier::ext_equal]
pub enum PathView {
    Directory(Seq<char>),
    NotDirectory(Seq<char>),
    Invalid(Seq<char>),
}

impl RootState {
    /// The state with another status message.
    pub open spec fn says(self, message: Seq<char>) -> RootState {
        RootState { model: ModelView { status_message: message, ..self.model }, ..self }
    }

    /// The state after an agent event.
    pub open spec fn reduces(self, event: EventView) -> RootState {
        RootState { model: crate::reducer::reduced(self.model, event), ..self }
    }

    /// Whether every counter can still count one further.
    pub open spec fn has_room(self) -> bool {
        &&& self.model.next_timeline_id < usize::MAX
        &&& self.next_id < u64::MAX
        &&& self.next_turn < usize::MAX
        &&& self.stream_token < usize::MAX
    }

    /// Whether a turn is under way.
    pub open spec fn is_busy(self) -> bool {
        self.model.runtime_status == RuntimeStatus::Running || self.model.runtime_status
            == RuntimeStatus::WaitingForApproval
    }

    /// Whether a prompt is one that this state takes.
    pub open spec fn takes_prompt(self, prompt: Seq<char>) -> bool {
        !self.is_busy() && !crate::text::is_blank(prompt)
    }

    /// The request that an answer is for, where one waits under its number.
    pub open spec fn waiting_for(self, response: JsonView) -> Option<PendingRequest> {
        match response.field("id"@) {
            Some(id) => match id.as_unsigned() {
                Some(n) => if self.pending_requests.contains_key(n) {
                    Some(self.pending_requests[n])
                } else {
                    None
                },
                None => None,
            },
            None => None,
        }
    }

    /// Whether an answer ends the introduction, so that a thread is asked for.
    pub open spec fn is_introduced_by(self, response: JsonView) -> bool {
        &&& response.field("error"@) is None
        &&& self.waiting_for(response) == Some(PendingRequest::Initialize)
    }

    /// The last row of the transcript.
    pub open spec fn bottom(self) -> Option<usize> {
        if self.model.timeline.len() == 0 {
            None
        } else {
            Some((self.model.timeline.len() - 1) as usize)
        }
    }
}

/// The state of a window that has just been opened.
pub open spec fn initial_state(cwd: Option<Seq<char>>) -> RootState {
    let fresh = crate::model::default_model();
    RootState {
        connected: false,
        live_thread_id: None,
        live_turn_id: None,
        model: ModelView {
            cwd: match cwd {
                Some(path) => path,
                None => fresh.cwd,
            },
            status_message: "Phase 0 fake runtime ready"@,
            ..fresh
        },
        pending_requests: Map::empty(),
        pending_server_approvals: Map::empty(),
        next_id: 1,
        next_turn: 0,
        stream_token: 0,
    }
}

/// A request to the app-server: it needs a number and a connection.
pub open spec fn requesting(
    state: RootState,
    request: JsonView,
    pending: PendingRequest,
) -> (RootState, Option<OutgoingView>) {
    match request.field("id"@) {
        Some(id) => match id.as_unsigned() {
            Some(number) => if state.connected {
                (
                    state,
                    Some(
                        OutgoingView {
                            message: request,
                            delivery: DeliveryView::Request { id: number, pending },
                        },
                    ),
                )
            } else {
                (state.says("Codex app-server is not connected"@), None)
            },
            None => (state.says("Internal error: app-server request missing id"@), None),
        },
        None => (state.says("Internal error: app-server request missing id"@), None),
    }
}

/// A message to the app-server that is no request: it needs a connection.
pub open spec fn sending(
    state: RootState,
    message: JsonView,
    delivery: DeliveryView,
) -> (RootState, Option<OutgoingView>) {
    if state.connected {
        (state, Some(OutgoingView { message, delivery }))
    } else {
        (state.says("Codex app-server is not connected"@), None)
    }
}

/// The optional messages of two steps, in order.
pub open spec fn both(
    first: Option<OutgoingView>,
    second: Option<OutgoingView>,
) -> Seq<OutgoingView> {
    one(first) + one(second)
}

/// At most one message.
pub open spec fn one(message: Option<OutgoingView>) -> Seq<OutgoingView> {
    match message {
        Some(m) => seq![m],
        None => Seq::empty(),
    }
}

/// What comes of a prompt for the app-server.
pub open spec fn live_turn(state: RootState, prompt: Seq<char>) -> (
    RootState,
    Option<OutgoingView>,
) {
    match state.live_thread_id {
        None => (state.says("Codex is still starting; try again in a moment"@), None),
        Some(thread_id) => {
            let numbered = RootState { next_id: (state.next_id + 1) as u64, ..state };
            let (next, message) = requesting(
                numbered,
                crate::runtime::app_server::request_message(
                    state.next_id,
                    "turn/start"@,
                    crate::runtime::app_server::turn_start_params(
                        thread_id,
                        state.model.cwd,
                        prompt,
                    ),
                ),
                PendingRequest::TurnStart,
            );
            (
                RootState {
                    model: ModelView {
                        status_message: "Sent prompt to Codex app-server"@,
                        runtime_status: RuntimeStatus::Running,
                        ..next.model
                    },
                    ..next
                },
                message,
            )
        },
    }
}

/// What comes of a prompt for the fake runtime.
pub open spec fn fake_turn(state: RootState, prompt: Seq<char>) -> (RootState, PromptView) {
    let token = (state.stream_token + 1) as usize;
    let turn = (state.next_turn + 1) as usize;
    (
        RootState { stream_token: token, next_turn: turn, ..state },
        PromptView::Scripted {
            token,
            script: crate::runtime::fake::scripted(turn as nat, state.model.cwd, prompt),
        },
    )
}

/// What comes of a prompt.
pub open spec fn prompted(state: RootState, prompt: Seq<char>) -> (RootState, PromptView) {
    if state.is_busy() {
        (state, PromptView::Ignored)
    } else if crate::text::is_blank(prompt) {
        (state.says("Type a message before sending"@), PromptView::Refused)
    } else if state.connected {
        let (next, message) = live_turn(state, prompt);
        (next, PromptView::Live(message))
    } else {
        fake_turn(state, prompt)
    }
}

/// What a step of a script does: nothing, once another stream has begun.
pub open spec fn played(state: RootState, token: usize, event: EventView) -> RootState {
    if state.stream_token == token {
        state.reduces(event)
    } else {
        state
    }
}

/// What comes of asking for a long transcript: it ends any stream.
pub open spec fn long_transcript(state: RootState) -> RootState {
    RootState {
        stream_token: (state.stream_token + 1) as usize,
        model: crate::reducer::seeded(state.model, 10_000),
        ..state
    }
}

/// What comes of breaking off a turn of the app-server.
pub open spec fn live_interrupt(state: RootState) -> (RootState, Option<OutgoingView>) {
    match (state.live_thread_id, state.live_turn_id) {
        (Some(thread_id), Some(turn_id)) => {
            let numbered = RootState { next_id: (state.next_id + 1) as u64, ..state };
            let (next, message) = requesting(
                numbered,
                crate::runtime::app_server::request_message(
                    state.next_id,
                    "turn/interrupt"@,
                    crate::runtime::app_server::turn_interrupt_params(thread_id, turn_id),
                ),
                PendingRequest::TurnInterrupt,
            );
            (next.says("Interrupt requested"@), message)
        },
        _ => (state.says("No live Codex turn to interrupt"@), None),
    }
}

/// What comes of breaking off a turn.
pub open spec fn interrupted(state: RootState) -> (RootState, Option<OutgoingView>) {
    let stopped = RootState { stream_token: (state.stream_token + 1) as usize, ..state };
    if state.connected {
        live_interrupt(stopped)
    } else {
        (
            RootState {
                model: ModelView {
                    pending_approvals: Seq::empty(),
                    runtime_status: RuntimeStatus::Idle,
                    status_message: "Fake stream interrupted by user"@,
                    turn_status: "Interrupted"@,
                    ..stopped.model
                },
                ..stopped
            },
            None,
        )
    }
}

/// What comes of a started app-server.
pub open spec fn connected(state: RootState) -> (RootState, Option<OutgoingView>) {
    let fresh = RootState {
        connected: true,
        live_thread_id: None,
        live_turn_id: None,
        pending_requests: Map::empty(),
        pending_server_approvals: Map::empty(),
        next_id: (state.next_id + 1) as u64,
        ..state
    };
    requesting(
        fresh.says("Starting Codex app-server"@),
        crate::runtime::app_server::request_message(
            state.next_id,
            "initialize"@,
            crate::runtime::app_server::initialize_params(),
        ),
        PendingRequest::Initialize,
    )
}

/// An answer to a request of the app-server.
pub open spec fn response_message(request_id: JsonView, result: JsonView) -> JsonView {
    JsonView::Object(map!["id"@ => request_id, "result"@ => result])
}

/// A refusal of a request of the app-server.
pub open spec fn error_message(request_id: JsonView, code: int, message: Seq<char>) -> JsonView {
    JsonView::Object(
        map![
            "id"@ => request_id,
            "error"@ => JsonView::Object(
                map![
                    "code"@ => JsonView::Number(NumberView::Integer(code)),
                    "message"@ => JsonView::Text(message),
                ],
            ),
        ],
    )
}

/// What comes of a request of the app-server: an approval to ask for, or a refusal.
pub open spec fn requested(state: RootState, request: JsonView) -> StepResult {
    let method = crate::runtime::app_server::text_or(request.text_at("method"@), "unknown"@);
    let id = request.field_or_null("id"@);
    match crate::runtime::app_server::request_event(request) {
        Some(event) => {
            let noted = RootState {
                pending_server_approvals: state.pending_server_approvals.insert(
                    crate::runtime::app_server::request_approval_id(request)->0,
                    PendingView { method, params: request.field_or_null("params"@), request_id: id },
                ),
                ..state
            };
            let next = noted.reduces(event);
            StepResult { state: next, outgoing: Seq::empty(), scroll_to: next.bottom() }
        },
        None => {
            let words = "Unsupported app-server request: "@ + method;
            let (next, message) = sending(
                state,
                error_message(id, -32601, words),
                DeliveryView::Refusal,
            );
            StepResult { state: next.says(words), outgoing: one(message), scroll_to: None }
        },
    }
}

/// What comes of a thread that the app-server has started.
pub open spec fn thread_ready(state: RootState, result: JsonView) -> RootState {
    let listed = match result.field("thread"@) {
        Some(thread) => {
            let id = crate::runtime::app_server::text_or(thread.text_at("id"@), "thread"@);
            RootState { live_thread_id: Some(id), ..state }.reduces(
                EventView::ThreadStarted {
                    id,
                    title: crate::runtime::app_server::thread_title(thread),
                },
            )
        },
        None => state,
    };
    listed.says("Codex app-server ready"@)
}

/// What comes of an answer of the app-server.
pub open spec fn answered(state: RootState, response: JsonView) -> StepResult {
    let number = match response.field("id"@) {
        Some(id) => id.as_unsigned(),
        None => None,
    };
    let pending = state.waiting_for(response);
    let rest = match number {
        Some(n) => RootState {
            pending_requests: state.pending_requests.remove(n),
            ..state
        },
        None => state,
    };
    let result = response.field_or_null("result"@);
    match response.field("error"@) {
        Some(error) => StepResult {
            state: rest.says("App-server error: "@ + crate::codec::written(error)),
            outgoing: Seq::empty(),
            scroll_to: None,
        },
        None => match pending {
            Some(PendingRequest::Initialize) => {
                let (greeted, first) = sending(
                    rest.says("Codex app-server initialized"@),
                    crate::runtime::app_server::initialized_message(),
                    DeliveryView::Notification,
                );
                let numbered = RootState { next_id: (greeted.next_id + 1) as u64, ..greeted };
                let (next, second) = requesting(
                    numbered,
                    crate::runtime::app_server::request_message(
                        greeted.next_id,
                        "thread/start"@,
                        crate::runtime::app_server::thread_start_params(greeted.model.cwd),
                    ),
                    PendingRequest::ThreadStart,
                );
                StepResult { state: next, outgoing: both(first, second), scroll_to: None }
            },
            Some(PendingRequest::ThreadStart) => StepResult {
                state: thread_ready(rest, result),
                outgoing: Seq::empty(),
                scroll_to: None,
            },
            Some(PendingRequest::TurnStart) => {
                let begun = match result.field("turn"@) {
                    Some(turn) => RootState { live_turn_id: turn.text_at("id"@), ..rest },
                    None => rest,
                };
                StepResult {
                    state: begun.says("Codex turn started"@),
                    outgoing: Seq::empty(),
                    scroll_to: None,
                }
            },
            Some(PendingRequest::TurnInterrupt) => StepResult {
                state: rest.says("Codex interrupt accepted"@),
                outgoing: Seq::empty(),
                scroll_to: None,
            },
            None => StepResult {
                state: rest.says("Received app-server response"@),
                outgoing: Seq::empty(),
                scroll_to: None,
            },
        },
    }
}

/// What comes of a notification of the app-server.
pub open spec fn notified(state: RootState, notification: JsonView) -> StepResult {
    match crate::runtime::app_server::notification_event(notification) {
        Some(event) => {
            let turn = match event {
                EventView::TurnStarted { id } => Some(id),
                EventView::TurnCompleted { id } => None,
                _ => state.live_turn_id,
            };
            let next = RootState { live_turn_id: turn, ..state }.reduces(event);
            StepResult { state: next, outgoing: Seq::empty(), scroll_to: next.bottom() }
        },
        None => StepResult { state, outgoing: Seq::empty(), scroll_to: None },
    }
}

/// What comes of something from the app-server.
pub open spec fn received(state: RootState, event: WireView) -> StepResult {
    match event {
        WireView::Response(response) => answered(state, response),
        WireView::ServerRequest(request) => requested(state, request),
        WireView::Notification(notification) => notified(state, notification),
        WireView::MalformedLine(line) => StepResult {
            state: state.says("Malformed app-server line: "@ + line),
            outgoing: Seq::empty(),
            scroll_to: None,
        },
        WireView::IoError(error) => StepResult {
            state: RootState {
                connected: false,
                pending_server_approvals: Map::empty(),
                ..state.says("App-server IO error: "@ + error)
            },
            outgoing: Seq::empty(),
            scroll_to: None,
        },
    }
}

/// What comes of the user's answer to an approval. An approval of the app-server stays on the
/// list until its answer has been handed over.
pub open spec fn resolved(state: RootState, approval_id: Seq<char>, approved: bool) -> (
    RootState,
    Option<OutgoingView>,
) {
    if state.pending_server_approvals.contains_key(approval_id) {
        let pending = state.pending_server_approvals[approval_id];
        let rest = RootState {
            pending_server_approvals: state.pending_server_approvals.remove(approval_id),
            ..state
        };
        match crate::runtime::app_server::approval_result(
            pending.method,
            pending.params,
            approved,
        ) {
            Some(result) => if state.connected {
                sending(
                    rest,
                    response_message(pending.request_id, result),
                    DeliveryView::Approval { approval_id, approved, pending },
                )
            } else {
                (state.says("Codex app-server is not connected"@), None)
            },
            None => (
                rest.says("Cannot resolve unsupported approval: "@ + pending.method),
                None,
            ),
        }
    } else {
        (state.reduces(EventView::ApprovalResolved { id: approval_id, approved }), None)
    }
}

/// What comes of a message once it has been handed over, or could not be. A failed turn request
/// and a failed refusal leave the words that stood there when they were sent.
pub open spec fn delivered(
    state: RootState,
    delivery: DeliveryView,
    outcome: Result<(), Seq<char>>,
) -> RootState {
    match (delivery, outcome) {
        (DeliveryView::Request { id, pending }, Ok(_)) => RootState {
            pending_requests: state.pending_requests.insert(id, pending),
            ..state
        },
        (DeliveryView::Request { id, pending }, Err(error)) => if pending
            == PendingRequest::Initialize || pending == PendingRequest::ThreadStart {
            state.says("Could not send app-server request: "@ + error)
        } else {
            state
        },
        (DeliveryView::Notification, Ok(_)) => state,
        (DeliveryView::Notification, Err(error)) => state.says(
            "Could not send app-server notification: "@ + error,
        ),
        (DeliveryView::Approval { approval_id, approved, pending }, Ok(_)) => state.reduces(
            EventView::ApprovalResolved { id: approval_id, approved },
        ).says(
            if approved {
                "Approval sent to Codex"@
            } else {
                "Denial sent to Codex"@
            },
        ),
        (DeliveryView::Approval { approval_id, approved, pending }, Err(error)) => RootState {
            pending_server_approvals: state.pending_server_approvals.insert(approval_id, pending),
            ..state.says("Could not send app-server response: "@ + error)
        },
        (DeliveryView::Refusal, _) => state,
    }
}

/// What comes of a chosen path: a directory becomes the project, and its path is shown.
pub open spec fn project_chosen(state: RootState, path: PathView) -> (
    RootState,
    Option<Seq<char>>,
) {
    match path {
        PathView::Directory(path) => (
            RootState {
                model: ModelView { cwd: path, status_message: "Project selected"@, ..state.model },
                ..state
            },
            Some(path),
        ),
        PathView::NotDirectory(path) => (state.says("Not a directory: "@ + path), None),
        PathView::Invalid(error) => (state.says("Project path is invalid: "@ + error), None),
    }
}

}
