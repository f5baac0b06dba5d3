//! What the window does: prompts, interrupts, approvals, and the talk with the app-server.
use vstd::prelude::*;

use std::collections::HashMap;

use crate::codec::to_line;
use crate::json::{put, string_at, Json, JsonNumber};
use crate::model::{AppModel, RuntimeStatus};
use crate::reducer::{reduce, AgentEvent};
use crate::runtime::app_server::{
    approval_event_id, approval_response_result, notification_to_agent_event,
    server_request_to_agent_event, title_of_thread, AppServerWireEvent, JsonRpcRequestBuilder,
};
use crate::runtime::fake::{FakeAgentRuntime, ScriptedAgentEvent};
use crate::runtime::AgentRuntime;
use crate::text::blank;
use crate::ui::approvals::{ApprovalTable, PendingServerApproval};
use crate::ui::state::{DeliveryView, OutgoingView, PathView, PromptView, RootState, StepResult};

verus! {

broadcast use vstd::std_specs::hash::group_hash_axioms;

/// What a request to the app-server was for.
#[derive(Clone, Copy, Debug, PartialEq, Eq, Structural)]
pub enum PendingRequest {
    Initialize,
    ThreadStart,
    TurnInterrupt,
    TurnStart,
}

/// What is still to be done once a message has been handed over.
#[derive(Debug)]
pub enum Delivery {
    Request { id: u64, pending: PendingRequest },
    Notification,
    Approval { approval_id: String, approved: bool, pending: PendingServerApproval },
    Refusal,
}

/// A message for the app-server.
#[derive(Debug)]
pub struct Outgoing {
    pub message: Json,
    pub delivery: Delivery,
}

/// What comes of something from the app-server.
#[derive(Debug)]
pub struct Reaction {
    pub outgoing: Vec<Outgoing>,
    pub scroll_to: Option<usize>,
}

/// What comes of a prompt.
#[derive(Debug)]
pub enum PromptOutcome {
    Ignored,
    Refused,
    Live(Option<Outgoing>),
    Scripted { token: usize, script: Vec<ScriptedAgentEvent> },
}

/// What a path turned out to be.
#[derive(Debug)]
pub enum ProjectPath {
    Directory(String),
    NotDirectory(String),
    Invalid(String),
}

impl View for Delivery {
    type V = DeliveryView;

    open spec fn view(&self) -> DeliveryView {
        match *self {
            Delivery::Request { id, pending } => DeliveryView::Request { id, pending },
            Delivery::Notification => DeliveryView::Notification,
            Delivery::Approval { approval_id, approved, pending } => DeliveryView::Approval {
                approval_id: approval_id@,
                approved,
                pending: pending@,
            },
            Delivery::Refusal => DeliveryView::Refusal,
        }
    }
}

impl View for Outgoing {
    type V = OutgoingView;

    open spec fn view(&self) -> OutgoingView {
        OutgoingView { message: self.message@, delivery: self.delivery@ }
    }
}

/// What an optional message holds.
pub open spec fn optional_outgoing(message: Option<Outgoing>) -> Option<OutgoingView> {
    match message {
        Some(m) => Some(m@),
        None => None,
    }
}

/// What the messages of a list hold.
pub open spec fn outgoing_view(messages: Seq<Outgoing>) -> Seq<OutgoingView> {
    messages.map_values(|message: Outgoing| message@)
}

impl View for PromptOutcome {
    type V = PromptView;

    open spec fn view(&self) -> PromptView {
        match *self {
            PromptOutcome::Ignored => PromptView::Ignored,
            PromptOutcome::Refused => PromptView::Refused,
            PromptOutcome::Live(message) => PromptView::Live(optional_outgoing(message)),
            PromptOutcome::Scripted { token, script } => PromptView::Scripted {
                token,
                script: crate::runtime::fake::script_view(script@),
            },
        }
    }
}

impl View for ProjectPath {
    type V = PathView;

    open spec fn view(&self) -> PathView {
        match *self {
            ProjectPath::Directory(path) => PathView::Directory(path@),
            ProjectPath::NotDirectory(path) => PathView::NotDirectory(path@),
            ProjectPath::Invalid(error) => PathView::Invalid(error@),
        }
    }
}

/// The state behind the window.
#[derive(Debug)]
pub struct RootView {
    pub connected: bool,
    pub live_thread_id: Option<String>,
    pub live_turn_id: Option<String>,
    pub model: AppModel,
    pub pending_requests: HashMap<u64, PendingRequest>,
    pub pending_server_approvals: ApprovalTable,
    pub request_builder: JsonRpcRequestBuilder,
    pub runtime: FakeAgentRuntime,
    pub stream_token: usize,
}

impl View for RootView {
    type V = RootState;

    open spec fn view(&self) -> RootState {
        RootState {
            connected: self.connected,
            live_thread_id: crate::model::option_view(self.live_thread_id),
            live_turn_id: crate::model::option_view(self.live_turn_id),
            model: self.model@,
            pending_requests: self.pending_requests@,
            pending_server_approvals: self.pending_server_approvals@,
            next_id: self.request_builder.next_id,
            next_turn: self.runtime.next_turn,
            stream_token: self.stream_token,
        }
    }
}

/// The outcome of handing a message over, with the words of the error.
pub open spec fn outcome_view(outcome: Result<(), String>) -> Result<(), Seq<char>> {
    match outcome {
        Ok(u) => Ok(u),
        Err(error) => Err(error@),
    }
}

/// At most one message, as a list.
fn list_one(message: Option<Outgoing>) -> (list: Vec<Outgoing>)
    ensures
        outgoing_view(list@) == crate::ui::state::one(optional_outgoing(message)),
{
    let mut list: Vec<Outgoing> = Vec::new();
    if let Some(m) = message {
        list.push(m);
    }
    assert(outgoing_view(list@) =~= crate::ui::state::one(optional_outgoing(message)));
    list
}

impl RootView {
    /// Whether no approval is listed twice.
    pub open spec fn well_formed(&self) -> bool {
        self.pending_server_approvals.well_formed()
    }

    /// The state of a window that has just been opened, in a directory if that could be told.
    pub fn new(cwd: Option<String>) -> (view: RootView)
        ensures
            view.well_formed(),
            view@ == crate::ui::state::initial_state(crate::model::option_view(cwd)),
    {
        let mut model = AppModel::default();
        if let Some(path) = cwd {
            model.cwd = path;
        }
        model.status_message = "Phase 0 fake runtime ready".to_string();
        RootView {
            connected: false,
            live_thread_id: None,
            live_turn_id: None,
            model,
            pending_requests: HashMap::new(),
            pending_server_approvals: ApprovalTable::new(),
            request_builder: JsonRpcRequestBuilder::default(),
            runtime: FakeAgentRuntime::default(),
            stream_token: 0,
        }
    }

    /// Whether every counter can still count one further.
    pub fn has_room(&self) -> (room: bool)
        ensures
            room == self@.has_room(),
    {
        self.model.next_timeline_id < usize::MAX && self.request_builder.next_id < u64::MAX
            && self.runtime.next_turn < usize::MAX && self.stream_token < usize::MAX
    }

    /// Whether a turn is under way, so that no prompt is taken.
    pub fn is_busy(&self) -> (busy: bool)
        ensures
            busy == self@.is_busy(),
    {
        match self.model.runtime_status {
            RuntimeStatus::Running => true,
            RuntimeStatus::WaitingForApproval => true,
            _ => false,
        }
    }

    /// The last row of the transcript.
    pub fn scroll_to_bottom(&self) -> (row: Option<usize>)
        ensures
            row == self@.bottom(),
    {
        if self.model.timeline.len() == 0 {
            None
        } else {
            Some(self.model.timeline.len() - 1)
        }
    }

    fn say(&mut self, message: String)
        requires
            old(self).well_formed(),
        ensures
            final(self).well_formed(),
            final(self)@ == old(self)@.says(message@),
    {
        self.model.status_message = message;
    }

    /// Takes a prompt of the user.
    pub fn start_fake_turn(&mut self, prompt: String) -> (outcome: PromptOutcome)
        requires
            old(self).well_formed(),
            old(self)@.takes_prompt(prompt@) && old(self).connected && old(
                self,
            ).live_thread_id is Some ==> old(self).request_builder.next_id < u64::MAX,
            old(self)@.takes_prompt(prompt@) && !old(self).connected ==> old(self).stream_token
                < usize::MAX && old(self).runtime.next_turn < usize::MAX,
        ensures
            final(self).well_formed(),
            (final(self)@, outcome@) == crate::ui::state::prompted(old(self)@, prompt@),
    {
        if self.is_busy() {
            return PromptOutcome::Ignored;
        }
        if blank(prompt.as_str()) {
            self.say("Type a message before sending".to_string());
            return PromptOutcome::Refused;
        }
        if self.connected {
            return PromptOutcome::Live(self.start_live_turn(prompt));
        }
        self.stream_fake_turn(prompt)
    }

    /// Starts a stream of scripted events, which takes the place of any earlier one.
    pub fn stream_fake_turn(&mut self, prompt: String) -> (outcome: PromptOutcome)
        requires
            old(self).well_formed(),
            old(self).stream_token < usize::MAX,
            old(self).runtime.next_turn < usize::MAX,
        ensures
            final(self).well_formed(),
            (final(self)@, outcome@) == crate::ui::state::fake_turn(old(self)@, prompt@),
    {
        self.stream_token += 1;
        let token = self.stream_token;
        let script = self.runtime.start_turn(self.model.cwd.as_str(), prompt);
        PromptOutcome::Scripted { token, script }
    }

    /// Plays a step of a stream, unless another stream has begun; says whether it did.
    pub fn play_step(&mut self, token: usize, event: AgentEvent) -> (played: bool)
        requires
            old(self).well_formed(),
            old(self).stream_token == token && event is UserMessageSubmitted
                ==> old(self).model.next_timeline_id < usize::MAX,
        ensures
            final(self).well_formed(),
            final(self)@ == crate::ui::state::played(old(self)@, token, event@),
            played == (old(self)@.stream_token == token),
    {
        if self.stream_token == token {
            reduce(&mut self.model, event);
            true
        } else {
            false
        }
    }

    /// Breaks the turn off.
    pub fn interrupt_fake_turn(&mut self) -> (message: Option<Outgoing>)
        requires
            old(self).well_formed(),
            old(self).stream_token < usize::MAX,
            old(self).connected && old(self).live_thread_id is Some && old(
                self,
            ).live_turn_id is Some ==> old(self).request_builder.next_id < u64::MAX,
        ensures
            final(self).well_formed(),
            (final(self)@, optional_outgoing(message)) == crate::ui::state::interrupted(
                old(self)@,
            ),
    {
        self.stream_token += 1;
        if self.connected {
            return self.interrupt_live_turn();
        }
        self.model.pending_approvals.clear();
        self.model.runtime_status = RuntimeStatus::Idle;
        self.model.status_message =
        match self.runtime.interrupt() {
            AgentEvent::Disconnected { message } => message,
            _ => "Fake stream interrupted".to_string(),
        };
        self.model.turn_status = "Interrupted".to_string();
        assert(crate::model::approvals_view(self.model.pending_approvals@) =~= Seq::empty());
        None
    }

    /// Asks for an app-server; says whether one is to be started.
    pub fn connect_codex(&mut self) -> (start: bool)
        requires
            old(self).well_formed(),
        ensures
            final(self).well_formed(),
            start == !old(self)@.connected,
            final(self)@ == if old(self)@.connected {
                old(self)@.says("Codex app-server is already connected"@)
            } else {
                old(self)@
            },
    {
        if self.connected {
            self.say("Codex app-server is already connected".to_string());
            return false;
        }
        true
    }

    /// Takes note of a started app-server, or of why it could not be started.
    pub fn finish_connect(&mut self, outcome: Result<(), String>) -> (message: Option<Outgoing>)
        requires
            old(self).well_formed(),
            outcome is Ok ==> old(self).request_builder.next_id < u64::MAX,
        ensures
            final(self).well_formed(),
            (final(self)@, optional_outgoing(message)) == match outcome {
                Ok(_) => crate::ui::state::connected(old(self)@),
                Err(error) => (
                    old(self)@.says("Could not start `codex app-server`: "@ + error@),
                    None,
                ),
            },
    {
        match outcome {
            Ok(_) => {
                self.connected = true;
                self.pending_requests.clear();
                self.pending_server_approvals.clear();
                self.live_thread_id = None;
                self.live_turn_id = None;
                self.say("Starting Codex app-server".to_string());
                let initialize = self.request_builder.initialize();
                self.send_app_server_request(initialize, PendingRequest::Initialize)
            },
            Err(error) => {
                self.say(
                    "Could not start `codex app-server`: ".to_string().concat(error.as_str()),
                );
                None
            },
        }
    }

    /// Hands a prompt to the app-server.
    pub fn start_live_turn(&mut self, prompt: String) -> (message: Option<Outgoing>)
        requires
            old(self).well_formed(),
            old(self).live_thread_id is Some ==> old(self).request_builder.next_id < u64::MAX,
        ensures
            final(self).well_formed(),
            (final(self)@, optional_outgoing(message)) == crate::ui::state::live_turn(
                old(self)@,
                prompt@,
            ),
    {
        let thread_id = match &self.live_thread_id {
            Some(thread_id) => thread_id.clone(),
            None => {
                self.say("Codex is still starting; try again in a moment".to_string());
                return None;
            },
        };
        let request = self.request_builder.turn_start(
            thread_id.as_str(),
            self.model.cwd.as_str(),
            prompt.as_str(),
        );
        let message = self.send_app_server_request(request, PendingRequest::TurnStart);
        self.say("Sent prompt to Codex app-server".to_string());
        self.model.runtime_status = RuntimeStatus::Running;
        message
    }

    /// Asks the app-server to break its turn off.
    pub fn interrupt_live_turn(&mut self) -> (message: Option<Outgoing>)
        requires
            old(self).well_formed(),
            old(self).live_thread_id is Some && old(self).live_turn_id is Some
                ==> old(self).request_builder.next_id < u64::MAX,
        ensures
            final(self).well_formed(),
            (final(self)@, optional_outgoing(message)) == crate::ui::state::live_interrupt(
                old(self)@,
            ),
    {
        let ids = match (&self.live_thread_id, &self.live_turn_id) {
            (Some(thread_id), Some(turn_id)) => Some((thread_id.clone(), turn_id.clone())),
            _ => None,
        };
        let (thread_id, turn_id) = match ids {
            Some(ids) => ids,
            None => {
                self.say("No live Codex turn to interrupt".to_string());
                return None;
            },
        };
        let request = self.request_builder.turn_interrupt(thread_id.as_str(), turn_id.as_str());
        let message = self.send_app_server_request(request, PendingRequest::TurnInterrupt);
        self.say("Interrupt requested".to_string());
        message
    }

    /// Prepares a request to the app-server.
    pub fn send_app_server_request(&mut self, request: Json, pending: PendingRequest) -> (message:
        Option<Outgoing>)
        requires
            old(self).well_formed(),
        ensures
            final(self).well_formed(),
            (final(self)@, optional_outgoing(message)) == crate::ui::state::requesting(
                old(self)@,
                request@,
                pending,
            ),
    {
        let number = match request.get("id") {
            Some(id) => id.as_u64(),
            None => None,
        };
        let id = match number {
            Some(id) => id,
            None => {
                self.say("Internal error: app-server request missing id".to_string());
                return None;
            },
        };
        if !self.connected {
            self.say("Codex app-server is not connected".to_string());
            return None;
        }
        Some(Outgoing { message: request, delivery: Delivery::Request { id, pending } })
    }

    /// Prepares a message to the app-server that is no request.
    fn send(&mut self, message: Json, delivery: Delivery) -> (outgoing: Option<Outgoing>)
        requires
            old(self).well_formed(),
        ensures
            final(self).well_formed(),
            (final(self)@, optional_outgoing(outgoing)) == crate::ui::state::sending(
                old(self)@,
                message@,
                delivery@,
            ),
    {
        if !self.connected {
            self.say("Codex app-server is not connected".to_string());
            return None;
        }
        Some(Outgoing { message, delivery })
    }

    /// Prepares a notification to the app-server.
    pub fn send_app_server_notification(&mut self, notification: Json) -> (message: Option<
        Outgoing,
    >)
        requires
            old(self).well_formed(),
        ensures
            final(self).well_formed(),
            (final(self)@, optional_outgoing(message)) == crate::ui::state::sending(
                old(self)@,
                notification@,
                DeliveryView::Notification,
            ),
    {
        self.send(notification, Delivery::Notification)
    }

    /// Refuses a request of the app-server.
    pub fn send_app_server_error_response(&mut self, request_id: Json, code: i64, message: &str) -> (
    outgoing: Option<Outgoing>)
        requires
            old(self).well_formed(),
        ensures
            final(self).well_formed(),
            (final(self)@, optional_outgoing(outgoing)) == crate::ui::state::sending(
                old(self)@,
                crate::ui::state::error_message(request_id@, code as int, message@),
                DeliveryView::Refusal,
            ),
    {
        let mut error: Vec<(String, Json)> = Vec::new();
        put(&mut error, "code", Json::Number(JsonNumber::Signed(code)));
        put(&mut error, "message", Json::text(message));
        let mut response: Vec<(String, Json)> = Vec::new();
        put(&mut response, "id", request_id);
        put(&mut response, "error", Json::Object(error));
        self.send(Json::Object(response), Delivery::Refusal)
    }

    /// Takes in something from the app-server.
    pub fn handle_app_server_event(&mut self, event: AppServerWireEvent) -> (reaction: Reaction)
        requires
            old(self).well_formed(),
            event matches AppServerWireEvent::Response(response) ==> (old(self)@.is_introduced_by(
                response@,
            ) ==> old(self).request_builder.next_id < u64::MAX),
        ensures
            final(self).well_formed(),
            (StepResult {
                state: final(self)@,
                outgoing: outgoing_view(reaction.outgoing@),
                scroll_to: reaction.scroll_to,
            }) == crate::ui::state::received(old(self)@, event@),
    {
        match event {
            AppServerWireEvent::Response(response) => self.handle_app_server_response(response),
            AppServerWireEvent::ServerRequest(request) => self.handle_app_server_request(request),
            AppServerWireEvent::Notification(notification) => self.handle_notification(
                notification,
            ),
            AppServerWireEvent::MalformedLine(line) => {
                self.say("Malformed app-server line: ".to_string().concat(line.as_str()));
                Reaction { outgoing: list_one(None), scroll_to: None }
            },
            AppServerWireEvent::IoError(error) => {
                self.say("App-server IO error: ".to_string().concat(error.as_str()));
                self.connected = false;
                self.pending_server_approvals.clear();
                Reaction { outgoing: list_one(None), scroll_to: None }
            },
        }
    }

    /// Takes in a notification of the app-server.
    pub fn handle_notification(&mut self, notification: Json) -> (reaction: Reaction)
        requires
            old(self).well_formed(),
        ensures
            final(self).well_formed(),
            (StepResult {
                state: final(self)@,
                outgoing: outgoing_view(reaction.outgoing@),
                scroll_to: reaction.scroll_to,
            }) == crate::ui::state::notified(old(self)@, notification@),
    {
        match notification_to_agent_event(&notification) {
            Some(agent_event) => {
                match &agent_event {
                    AgentEvent::TurnStarted { id } => {
                        self.live_turn_id = Some(id.clone());
                    },
                    AgentEvent::TurnCompleted { .. } => {
                        self.live_turn_id = None;
                    },
                    _ => {},
                }
                reduce(&mut self.model, agent_event);
                Reaction { outgoing: list_one(None), scroll_to: self.scroll_to_bottom() }
            },
            None => Reaction { outgoing: list_one(None), scroll_to: None },
        }
    }

    /// Takes in a request of the app-server.
    pub fn handle_app_server_request(&mut self, request: Json) -> (reaction: Reaction)
        requires
            old(self).well_formed(),
        ensures
            final(self).well_formed(),
            (StepResult {
                state: final(self)@,
                outgoing: outgoing_view(reaction.outgoing@),
                scroll_to: reaction.scroll_to,
            }) == crate::ui::state::requested(old(self)@, request@),
    {
        let method = match string_at(&request, "method") {
            Some(method) => method,
            None => "unknown".to_string(),
        };
        // Whatever asks for an approval has an identifier for it.
        if let (Some(agent_event), Some(approval_id)) = (
            server_request_to_agent_event(&request),
            approval_event_id(&request),
        ) {
            let pending = PendingServerApproval {
                method,
                params: request.get_or_null("params"),
                request_id: request.get_or_null("id"),
            };
            self.pending_server_approvals.insert(approval_id, pending);
            reduce(&mut self.model, agent_event);
            return Reaction { outgoing: list_one(None), scroll_to: self.scroll_to_bottom() };
        }
        let words = "Unsupported app-server request: ".to_string().concat(method.as_str());
        let refusal = self.send_app_server_error_response(
            request.get_or_null("id"),
            -32601,
            words.as_str(),
        );
        self.say(words);
        Reaction { outgoing: list_one(refusal), scroll_to: None }
    }

    /// Takes in an answer of the app-server.
    pub fn handle_app_server_response(&mut self, response: Json) -> (reaction: Reaction)
        requires
            old(self).well_formed(),
            old(self)@.is_introduced_by(response@) ==> old(self).request_builder.next_id < u64::MAX,
        ensures
            final(self).well_formed(),
            (StepResult {
                state: final(self)@,
                outgoing: outgoing_view(reaction.outgoing@),
                scroll_to: reaction.scroll_to,
            }) == crate::ui::state::answered(old(self)@, response@),
    {
        let number = match response.get("id") {
            Some(id) => id.as_u64(),
            None => None,
        };
        let pending = match number {
            Some(n) => self.pending_requests.remove(&n),
            None => None,
        };

        if let Some(error) = response.get("error") {
            self.say("App-server error: ".to_string().concat(to_line(error).as_str()));
            return Reaction { outgoing: list_one(None), scroll_to: None };
        }
        let result = response.get_or_null("result");
        match pending {
            Some(PendingRequest::Initialize) => {
                self.say("Codex app-server initialized".to_string());
                let notification = self.request_builder.initialized_notification();
                let first = self.send_app_server_notification(notification);
                let request = self.request_builder.thread_start(self.model.cwd.as_str());
                let second = self.send_app_server_request(request, PendingRequest::ThreadStart);
                let mut outgoing = list_one(first);
                let mut rest = list_one(second);
                let ghost front = outgoing@;
                let ghost back = rest@;
                outgoing.append(&mut rest);
                assert(outgoing_view(outgoing@) =~= outgoing_view(front) + outgoing_view(back));
                Reaction { outgoing, scroll_to: None }
            },
            Some(PendingRequest::ThreadStart) => {
                if let Some(thread) = result.get("thread") {
                    let thread_id = match string_at(thread, "id") {
                        Some(id) => id,
                        None => "thread".to_string(),
                    };
                    self.live_thread_id = Some(thread_id.clone());
                    reduce(
                        &mut self.model,
                        AgentEvent::ThreadStarted { id: thread_id, title: title_of_thread(thread) },
                    );
                }
                self.say("Codex app-server ready".to_string());
                Reaction { outgoing: list_one(None), scroll_to: None }
            },
            Some(PendingRequest::TurnStart) => {
                if let Some(turn) = result.get("turn") {
                    self.live_turn_id = string_at(turn, "id");
                }
                self.say("Codex turn started".to_string());
                Reaction { outgoing: list_one(None), scroll_to: None }
            },
            Some(PendingRequest::TurnInterrupt) => {
                self.say("Codex interrupt accepted".to_string());
                Reaction { outgoing: list_one(None), scroll_to: None }
            },
            None => {
                self.say("Received app-server response".to_string());
                Reaction { outgoing: list_one(None), scroll_to: None }
            },
        }
    }

    /// Takes the user's answer to an approval.
    pub fn resolve_approval(&mut self, approval_id: String, approved: bool) -> (message: Option<
        Outgoing,
    >)
        requires
            old(self).well_formed(),
        ensures
            final(self).well_formed(),
            (final(self)@, optional_outgoing(message)) == crate::ui::state::resolved(
                old(self)@,
                approval_id@,
                approved,
            ),
    {
        match self.pending_server_approvals.remove(approval_id.as_str()) {
            Some(pending) => {
                let result = match approval_response_result(
                    pending.method.as_str(),
                    &pending.params,
                    approved,
                ) {
                    Some(result) => result,
                    None => {
                        self.say(
                            "Cannot resolve unsupported approval: ".to_string().concat(
                                pending.method.as_str(),
                            ),
                        );
                        return None;
                    },
                };
                if !self.connected {
                    self.say("Codex app-server is not connected".to_string());
                    self.pending_server_approvals.insert(approval_id, pending);
                    assert(self@.pending_server_approvals =~= old(self)@.pending_server_approvals);
                    return None;
                }
                let mut response: Vec<(String, Json)> = Vec::new();
                put(&mut response, "id", pending.request_id.copy());
                put(&mut response, "result", result);
                self.send(
                    Json::Object(response),
                    Delivery::Approval { approval_id, approved, pending },
                )
            },
            None => {
                assert(self@ =~= old(self)@);
                reduce(
                    &mut self.model,
                    AgentEvent::ApprovalResolved { id: approval_id, approved },
                );
                None
            },
        }
    }

    /// Takes note that a message has been handed over, or of why it could not be.
    pub fn delivered(&mut self, delivery: Delivery, outcome: Result<(), String>)
        requires
            old(self).well_formed(),
        ensures
            final(self).well_formed(),
            final(self)@ == crate::ui::state::delivered(
                old(self)@,
                delivery@,
                outcome_view(outcome),
            ),
    {
        match (delivery, outcome) {
            (Delivery::Request { id, pending }, Ok(_)) => {
                self.pending_requests.insert(id, pending);
            },
            (Delivery::Request { pending, .. }, Err(error)) => {
                match pending {
                    PendingRequest::Initialize | PendingRequest::ThreadStart => self.say(
                        "Could not send app-server request: ".to_string().concat(error.as_str()),
                    ),
                    _ => {},
                }
            },
            (Delivery::Notification, Ok(_)) => {},
            (Delivery::Notification, Err(error)) => self.say(
                "Could not send app-server notification: ".to_string().concat(error.as_str()),
            ),
            (Delivery::Approval { approval_id, approved, .. }, Ok(_)) => {
                reduce(
                    &mut self.model,
                    AgentEvent::ApprovalResolved { id: approval_id, approved },
                );
                self.say(
                    if approved {
                        "Approval sent to Codex".to_string()
                    } else {
                        "Denial sent to Codex".to_string()
                    },
                );
            },
            (Delivery::Approval { approval_id, pending, .. }, Err(error)) => {
                self.say(
                    "Could not send app-server response: ".to_string().concat(error.as_str()),
                );
                self.pending_server_approvals.insert(approval_id, pending);
            },
            (Delivery::Refusal, _) => {},
        }
    }

    /// Shows a long transcript of made-up rows, and ends any stream.
    pub fn seed_long_transcript(&mut self)
        requires
            old(self).well_formed(),
            old(self).stream_token < usize::MAX,
        ensures
            final(self).well_formed(),
            final(self)@ == crate::ui::state::long_transcript(old(self)@),
    {
        self.stream_token += 1;
        crate::reducer::seed_long_transcript(&mut self.model, 10_000);
    }

    /// Takes a chosen path; gives back what the path field is to show.
    pub fn set_project_path(&mut self, path: ProjectPath) -> (shown: Option<String>)
        requires
            old(self).well_formed(),
        ensures
            final(self).well_formed(),
            (final(self)@, crate::model::option_view(shown)) == crate::ui::state::project_chosen(
                old(self)@,
                path@,
            ),
    {
        match path {
            ProjectPath::Directory(path) => {
                self.model.cwd = path.clone();
                self.say("Project selected".to_string());
                Some(path)
            },
            ProjectPath::NotDirectory(path) => {
                self.say("Not a directory: ".to_string().concat(path.as_str()));
                None
            },
            ProjectPath::Invalid(error) => {
                self.say("Project path is invalid: ".to_string().concat(error.as_str()));
                None
            },
        }
    }

    /// Takes note that the current directory could not be read.
    pub fn current_dir_failed(&mut self, error: &str)
        requires
            old(self).well_formed(),
        ensures
            final(self).well_formed(),
            final(self)@ == old(self)@.says("Could not read current directory: "@ + error@),
    {
        self.say("Could not read current directory: ".to_string().concat(error));
    }
}

}
