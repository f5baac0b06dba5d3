//! What holds of the window through all that happens to it.
use vstd::prelude::*;

use crate::json::{JsonView, NumberView};
use crate::model::{ModelView, RuntimeStatus};
use crate::reducer::EventView;
use crate::runtime::app_server::WireView;
use crate::ui::approvals::PendingView;
use crate::ui::root::PendingRequest;
use crate::ui::state::{DeliveryView, OutgoingView, PathView, PromptView, RootState};

verus! {

/// Whether an approval can be answered, and goes by the identifier of its request.
pub open spec fn answerable(approval_id: Seq<char>, pending: PendingView) -> bool {
    &&& crate::runtime::app_server::asks_approval(pending.method)
    &&& crate::runtime::app_server::approval_id(pending.request_id) == Some(approval_id)
}

/// What holds of every state: the threads are in order, requests that wait for an answer have
/// numbers that are taken, every approval of the app-server can be answered, and there is none
/// without an app-server.
pub open spec fn in_order(state: RootState) -> bool {
    &&& crate::laws::timeline::threads_in_order(state.model)
    &&& forall|n: u64| #[trigger]
        state.pending_requests.contains_key(n) ==> n < state.next_id
    &&& forall|id: Seq<char>| #[trigger]
        state.pending_server_approvals.contains_key(id) ==> state.connected && answerable(
            id,
            state.pending_server_approvals[id],
        )
}

/// What holds of what is to be done once a message has been handed over.
pub open spec fn delivery_in_order(state: RootState, delivery: DeliveryView) -> bool {
    match delivery {
        DeliveryView::Request { id, .. } => id < state.next_id,
        DeliveryView::Approval { approval_id, pending, .. } => answerable(approval_id, pending),
        _ => true,
    }
}

/// What holds of a message that may have been made.
pub open spec fn message_in_order(state: RootState, message: Option<OutgoingView>) -> bool {
    match message {
        Some(m) => delivery_in_order(state, m.delivery),
        None => true,
    }
}

proof fn lemma_reduces_in_order(state: RootState, event: EventView)
    requires
        in_order(state),
    ensures
        in_order(state.reduces(event)),
{
    crate::laws::timeline::law_threads_in_order(state.model, event, 0);
}

/// A request of the client's own carries its number.
proof fn lemma_own_request(
    state: RootState,
    number: u64,
    method: Seq<char>,
    params: JsonView,
    pending: PendingRequest,
)
    ensures
        crate::ui::state::requesting(
            state,
            crate::runtime::app_server::request_message(number, method, params),
            pending,
        ) == if state.connected {
            (
                state,
                Some(
                    OutgoingView {
                        message: crate::runtime::app_server::request_message(
                            number,
                            method,
                            params,
                        ),
                        delivery: DeliveryView::Request { id: number, pending },
                    },
                ),
            )
        } else {
            (state.says("Codex app-server is not connected"@), None)
        },
{
    crate::laws::protocol::law_requests_numbered(number, method, params);
}

/// A window that has just been opened is in order.
pub proof fn law_opened_in_order(cwd: Option<Seq<char>>)
    ensures
        in_order(crate::ui::state::initial_state(cwd)),
{
    crate::laws::timeline::law_threads_in_order(
        crate::model::default_model(),
        EventView::Lagged { skipped: 0 },
        0,
    );
}

/// Whatever the user does keeps the window in order, and so are the messages that come of it.
pub proof fn law_user_keeps_order(
    state: RootState,
    prompt: Seq<char>,
    approval_id: Seq<char>,
    approved: bool,
    path: PathView,
)
    requires
        in_order(state),
        state.next_id < u64::MAX,
    ensures
        ({
            let (next, outcome) = crate::ui::state::prompted(state, prompt);
            &&& in_order(next)
            &&& outcome matches PromptView::Live(message) ==> message_in_order(next, message)
        }),
        ({
            let (next, message) = crate::ui::state::interrupted(state);
            in_order(next) && message_in_order(next, message)
        }),
        ({
            let (next, message) = crate::ui::state::connected(state);
            in_order(next) && message_in_order(next, message)
        }),
        ({
            let (next, message) = crate::ui::state::resolved(state, approval_id, approved);
            in_order(next) && message_in_order(next, message)
        }),
        in_order(crate::ui::state::project_chosen(state, path).0),
{
    if let Some(thread_id) = state.live_thread_id {
        let params = crate::runtime::app_server::turn_start_params(
            thread_id,
            state.model.cwd,
            prompt,
        );
        let numbered = RootState { next_id: (state.next_id + 1) as u64, ..state };
        lemma_own_request(
            numbered,
            state.next_id,
            "turn/start"@,
            params,
            PendingRequest::TurnStart,
        );
        if let Some(turn_id) = state.live_turn_id {
            let stopped = RootState {
                stream_token: (state.stream_token + 1) as usize,
                ..numbered
            };
            lemma_own_request(
                stopped,
                state.next_id,
                "turn/interrupt"@,
                crate::runtime::app_server::turn_interrupt_params(thread_id, turn_id),
                PendingRequest::TurnInterrupt,
            );
        }
    }
    let fresh = RootState {
        connected: true,
        live_thread_id: None,
        live_turn_id: None,
        pending_requests: Map::empty(),
        pending_server_approvals: Map::empty(),
        next_id: (state.next_id + 1) as u64,
        ..state
    };
    lemma_own_request(
        fresh.says("Starting Codex app-server"@),
        state.next_id,
        "initialize"@,
        crate::runtime::app_server::initialize_params(),
        PendingRequest::Initialize,
    );
    lemma_reduces_in_order(state, EventView::ApprovalResolved { id: approval_id, approved });
    if state.pending_server_approvals.contains_key(approval_id) {
        assert(answerable(approval_id, state.pending_server_approvals[approval_id]));
    }
}

/// A step of a script, and a long transcript, keep the window in order.
pub proof fn law_script_keeps_order(state: RootState, token: usize, event: EventView)
    requires
        in_order(state),
    ensures
        in_order(crate::ui::state::played(state, token, event)),
        in_order(crate::ui::state::long_transcript(state)),
{
    lemma_reduces_in_order(state, event);
    crate::laws::timeline::law_threads_in_order(state.model, event, 10_000);
}

proof fn lemma_requested_in_order(state: RootState, request: JsonView)
    requires
        in_order(state),
        state.connected,
    ensures
        in_order(crate::ui::state::requested(state, request).state),
        forall|i: int|
            0 <= i < crate::ui::state::requested(state, request).outgoing.len()
                ==> delivery_in_order(
                state,
                (#[trigger] crate::ui::state::requested(state, request).outgoing[i]).delivery,
            ),
{
    crate::laws::protocol::law_asks_for_approval(request);
    if let Some(event) = crate::runtime::app_server::request_event(request) {
        let pending = PendingView {
            method: crate::runtime::app_server::text_or(request.text_at("method"@), "unknown"@),
            params: request.field_or_null("params"@),
            request_id: request.field_or_null("id"@),
        };
        let id = crate::runtime::app_server::request_approval_id(request)->0;
        assert(answerable(id, pending));
        let noted = RootState {
            pending_server_approvals: state.pending_server_approvals.insert(id, pending),
            ..state
        };
        lemma_reduces_in_order(noted, event);
    }
}

proof fn lemma_answered_in_order(state: RootState, response: JsonView)
    requires
        in_order(state),
        state.connected,
        state.is_introduced_by(response) ==> state.next_id < u64::MAX,
    ensures
        in_order(crate::ui::state::answered(state, response).state),
        forall|i: int|
            0 <= i < crate::ui::state::answered(state, response).outgoing.len()
                ==> delivery_in_order(
                crate::ui::state::answered(state, response).state,
                (#[trigger] crate::ui::state::answered(state, response).outgoing[i]).delivery,
            ),
{
    let number = match response.field("id"@) {
        Some(id) => id.as_unsigned(),
        None => None,
    };
    let rest = match number {
        Some(n) => RootState { pending_requests: state.pending_requests.remove(n), ..state },
        None => state,
    };
    assert(in_order(rest));
    let greeted = RootState {
        next_id: (rest.next_id + 1) as u64,
        ..rest.says("Codex app-server initialized"@)
    };
    lemma_own_request(
        greeted,
        rest.next_id,
        "thread/start"@,
        crate::runtime::app_server::thread_start_params(rest.model.cwd),
        PendingRequest::ThreadStart,
    );
    if let Some(thread) = response.field_or_null("result"@).field("thread"@) {
        let id = crate::runtime::app_server::text_or(thread.text_at("id"@), "thread"@);
        lemma_reduces_in_order(
            RootState { live_thread_id: Some(id), ..rest },
            EventView::ThreadStarted {
                id,
                title: crate::runtime::app_server::thread_title(thread),
            },
        );
    }
}

/// Whatever comes from a connected app-server keeps the window in order, and so are the messages
/// that come of it.
pub proof fn law_received_keeps_order(state: RootState, event: WireView)
    requires
        in_order(state),
        state.connected,
        event matches WireView::Response(response) ==> (state.is_introduced_by(response)
            ==> state.next_id < u64::MAX),
    ensures
        in_order(crate::ui::state::received(state, event).state),
        forall|i: int|
            0 <= i < crate::ui::state::received(state, event).outgoing.len()
                ==> delivery_in_order(
                crate::ui::state::received(state, event).state,
                (#[trigger] crate::ui::state::received(state, event).outgoing[i]).delivery,
            ),
{
    match event {
        WireView::Response(response) => lemma_answered_in_order(state, response),
        WireView::ServerRequest(request) => lemma_requested_in_order(state, request),
        WireView::Notification(notification) => {
            if let Some(agent_event) = crate::runtime::app_server::notification_event(notification)
            {
                let turn = match agent_event {
                    EventView::TurnStarted { id } => Some(id),
                    EventView::TurnCompleted { id } => None,
                    _ => state.live_turn_id,
                };
                lemma_reduces_in_order(RootState { live_turn_id: turn, ..state }, agent_event);
            }
        },
        _ => {},
    }
}

/// Handing a message over to a connected app-server keeps the window in order, whether it
/// succeeds or not.
pub proof fn law_delivered_keeps_order(
    state: RootState,
    delivery: DeliveryView,
    outcome: Result<(), Seq<char>>,
)
    requires
        in_order(state),
        state.connected,
        delivery_in_order(state, delivery),
    ensures
        in_order(crate::ui::state::delivered(state, delivery, outcome)),
{
    if let DeliveryView::Approval { approval_id, approved, pending } = delivery {
        lemma_reduces_in_order(state, EventView::ApprovalResolved { id: approval_id, approved });
    }
}

/// An approval that the app-server asked for is answered with its own identifier and the result
/// that fits its method. Once the answer is handed over, the approval is gone from the list and
/// from the screen. While it cannot be handed over, it stays on both.
pub proof fn law_approval_reaches_server(
    state: RootState,
    approval_id: Seq<char>,
    approved: bool,
    error: Seq<char>,
)
    requires
        in_order(state),
        state.pending_server_approvals.contains_key(approval_id),
    ensures
        ({
            let pending = state.pending_server_approvals[approval_id];
            let (next, message) = crate::ui::state::resolved(state, approval_id, approved);
            let result = crate::runtime::app_server::approval_result(
                pending.method,
                pending.params,
                approved,
            );
            let sent = crate::ui::state::delivered(next, message->0.delivery, Ok(()));
            let kept = crate::ui::state::delivered(next, message->0.delivery, Err(error));
            &&& message is Some && result is Some
            &&& message->0.message.field("id"@) == Some(pending.request_id)
            &&& message->0.message.field("result"@) == result
            &&& next.model == state.model
            &&& !sent.pending_server_approvals.contains_key(approval_id)
            &&& forall|i: int|
                0 <= i < sent.model.pending_approvals.len() ==> (
                #[trigger] sent.model.pending_approvals[i]).id != approval_id
            &&& kept.pending_server_approvals == state.pending_server_approvals
            &&& kept.model.pending_approvals == state.model.pending_approvals
        }),
{
    let pending = state.pending_server_approvals[approval_id];
    assert(answerable(approval_id, pending));
    crate::laws::protocol::lemma_field_names();
    let (next, message) = crate::ui::state::resolved(state, approval_id, approved);
    let sent = crate::ui::state::delivered(next, message->0.delivery, Ok(()));
    let kept = crate::ui::state::delivered(next, message->0.delivery, Err(error));
    assert(kept.pending_server_approvals =~= state.pending_server_approvals);
    crate::laws::timeline::law_resolved_gone(next.model, approval_id, approved);
    assert forall|i: int| 0 <= i < sent.model.pending_approvals.len() implies (
    #[trigger] sent.model.pending_approvals[i]).id != approval_id by {
        let left = crate::reducer::reduced(
            next.model,
            EventView::ApprovalResolved { id: approval_id, approved },
        ).pending_approvals;
        assert(left.contains(left[i]));
    }
}

/// A request of the app-server that asks for no approval is refused under its own identifier, and
/// changes nothing but the status message.
pub proof fn law_other_requests_refused(state: RootState, request: JsonView)
    requires
        state.connected,
        crate::runtime::app_server::request_event(request) is None,
    ensures
        ({
            let step = crate::ui::state::requested(state, request);
            let refusal = step.outgoing[0].message;
            &&& step.outgoing.len() == 1
            &&& refusal.field("id"@) == Some(request.field_or_null("id"@))
            &&& refusal.field("error"@) matches Some(error) && error.field("code"@) == Some(
                JsonView::Number(NumberView::Integer(-32601)),
            )
            &&& step.state == state.says(step.state.model.status_message)
        }),
{
    crate::laws::protocol::lemma_field_names();
    reveal_strlit("code");
    reveal_strlit("message");
    assert("code"@.len() == 4 && "message"@.len() == 7);
}

/// Once a stream of scripted events is broken off, or replaced by another or by a long transcript,
/// no further step of it changes anything, nor does one of any stream before it.
pub proof fn law_old_streams_end(
    state: RootState,
    old_token: usize,
    prompt: Seq<char>,
    event: EventView,
)
    requires
        state.stream_token < usize::MAX,
        old_token <= state.stream_token,
    ensures
        ({
            let broken = crate::ui::state::interrupted(state).0;
            &&& broken.stream_token == state.stream_token + 1
            &&& crate::ui::state::played(broken, old_token, event) == broken
        }),
        ({
            let (next, outcome) = crate::ui::state::fake_turn(state, prompt);
            &&& next.stream_token == state.stream_token + 1
            &&& crate::ui::state::played(next, old_token, event) == next
            &&& outcome matches PromptView::Scripted { token, .. }
                && crate::ui::state::played(next, token, event) == next.reduces(event)
        }),
        ({
            let seeded = crate::ui::state::long_transcript(state);
            &&& seeded.stream_token == state.stream_token + 1
            &&& crate::ui::state::played(seeded, old_token, event) == seeded
        }),
{
    if let Some(thread_id) = state.live_thread_id {
        if let Some(turn_id) = state.live_turn_id {
            lemma_own_request(
                RootState {
                    next_id: (state.next_id + 1) as u64,
                    stream_token: (state.stream_token + 1) as usize,
                    ..state
                },
                state.next_id,
                "turn/interrupt"@,
                crate::runtime::app_server::turn_interrupt_params(thread_id, turn_id),
                PendingRequest::TurnInterrupt,
            );
        }
    }
}

/// Of prompts to the app-server there is one at a time: once one has been sent, others are
/// ignored until the turn is over.
pub proof fn law_one_prompt_at_a_time(state: RootState, first: Seq<char>, second: Seq<char>)
    requires
        state.live_thread_id is Some,
    ensures
        ({
            let sent = crate::ui::state::live_turn(state, first).0;
            &&& sent.model.runtime_status == RuntimeStatus::Running
            &&& crate::ui::state::prompted(sent, second) == (sent, PromptView::Ignored)
        }),
{
}

/// An answer to the request with a number, with a result.
pub open spec fn answers(response: JsonView, number: u64, result: JsonView) -> bool {
    &&& response.field("id"@) == Some(JsonView::Number(NumberView::Integer(number as int)))
    &&& response.field("result"@) == Some(result)
    &&& response.field("error"@) is None
}

/// A client that connects introduces itself. Once that is answered, it sends the notification that
/// follows and asks for a thread in its project. Once that is answered, the thread is the live and
/// the active one, it is listed, and no request waits any more.
pub proof fn law_handshake(
    state: RootState,
    greeting: JsonView,
    greeting_result: JsonView,
    opening: JsonView,
    opening_result: JsonView,
    thread: JsonView,
    thread_id: Seq<char>,
)
    requires
        state.next_id < u64::MAX - 1,
        answers(greeting, state.next_id, greeting_result),
        answers(opening, (state.next_id + 1) as u64, opening_result),
        opening_result.field("thread"@) == Some(thread),
        thread.text_at("id"@) == Some(thread_id),
    ensures
        ({
            let number = state.next_id;
            let next_number = (number + 1) as u64;
            let (begun, hello) = crate::ui::state::connected(state);
            let hello_done = DeliveryView::Request {
                id: number,
                pending: PendingRequest::Initialize,
            };
            let open_done = DeliveryView::Request {
                id: next_number,
                pending: PendingRequest::ThreadStart,
            };
            let waiting = crate::ui::state::delivered(begun, hello_done, Ok(()));
            let greeted = crate::ui::state::answered(waiting, greeting);
            let asked = crate::ui::state::delivered(greeted.state, open_done, Ok(()));
            let ready = crate::ui::state::answered(asked, opening);
            &&& hello == Some(
                OutgoingView {
                    message: crate::runtime::app_server::request_message(
                        number,
                        "initialize"@,
                        crate::runtime::app_server::initialize_params(),
                    ),
                    delivery: hello_done,
                },
            )
            &&& greeted.outgoing == seq![
                OutgoingView {
                    message: crate::runtime::app_server::initialized_message(),
                    delivery: DeliveryView::Notification,
                },
                OutgoingView {
                    message: crate::runtime::app_server::request_message(
                        next_number,
                        "thread/start"@,
                        crate::runtime::app_server::thread_start_params(state.model.cwd),
                    ),
                    delivery: open_done,
                },
            ]
            &&& ready.outgoing.len() == 0
            &&& ready.state.live_thread_id == Some(thread_id)
            &&& ready.state.model.active_thread == Some(thread_id)
            &&& crate::reducer::has_thread(ready.state.model.threads, thread_id)
            &&& ready.state.model.status_message == "Codex app-server ready"@
            &&& ready.state.pending_requests == Map::<u64, PendingRequest>::empty()
        }),
{
    let number = state.next_id;
    let next_number = (number + 1) as u64;
    let fresh = RootState {
        connected: true,
        live_thread_id: None,
        live_turn_id: None,
        pending_requests: Map::empty(),
        pending_server_approvals: Map::empty(),
        next_id: next_number,
        ..state
    };
    lemma_own_request(
        fresh.says("Starting Codex app-server"@),
        number,
        "initialize"@,
        crate::runtime::app_server::initialize_params(),
        PendingRequest::Initialize,
    );
    let begun = crate::ui::state::connected(state).0;
    let waiting = crate::ui::state::delivered(
        begun,
        DeliveryView::Request { id: number, pending: PendingRequest::Initialize },
        Ok(()),
    );
    let rest = RootState { pending_requests: waiting.pending_requests.remove(number), ..waiting };
    lemma_own_request(
        RootState {
            next_id: (next_number + 1) as u64,
            ..rest.says("Codex app-server initialized"@)
        },
        next_number,
        "thread/start"@,
        crate::runtime::app_server::thread_start_params(rest.model.cwd),
        PendingRequest::ThreadStart,
    );
    let greeted = crate::ui::state::answered(waiting, greeting);
    let asked = crate::ui::state::delivered(
        greeted.state,
        DeliveryView::Request { id: next_number, pending: PendingRequest::ThreadStart },
        Ok(()),
    );
    let ready = crate::ui::state::answered(asked, opening);
    assert(ready.state.pending_requests =~= Map::<u64, PendingRequest>::empty());
    lemma_started_thread_listed(
        asked.model,
        thread_id,
        crate::runtime::app_server::thread_title(thread),
    );
}

/// A thread that has been started is listed.
proof fn lemma_started_thread_listed(model: ModelView, id: Seq<char>, title: Seq<char>)
    ensures
        crate::reducer::has_thread(
            crate::reducer::reduced(model, EventView::ThreadStarted { id, title }).threads,
            id,
        ),
{
    let after = crate::reducer::reduced(model, EventView::ThreadStarted { id, title }).threads;
    if crate::reducer::has_thread(model.threads, id) {
        crate::laws::timeline::lemma_first_thread(model.threads, id);
        assert(after[crate::reducer::thread_place(model.threads, id)].id == id);
    } else {
        assert(after[0].id == id);
    }
}

/// A prompt reaches the live thread, and the turn that answers it is the one that an interrupt
/// names.
pub proof fn law_live_turn(
    state: RootState,
    prompt: Seq<char>,
    response: JsonView,
    result: JsonView,
    turn: JsonView,
    thread_id: Seq<char>,
    turn_id: Seq<char>,
)
    requires
        state.connected,
        state.next_id < u64::MAX - 1,
        state.live_thread_id == Some(thread_id),
        !state.is_busy(),
        !crate::text::is_blank(prompt),
        answers(response, state.next_id, result),
        result.field("turn"@) == Some(turn),
        turn.text_at("id"@) == Some(turn_id),
    ensures
        ({
            let number = state.next_id;
            let next_number = (number + 1) as u64;
            let (sent, outcome) = crate::ui::state::prompted(state, prompt);
            let done = DeliveryView::Request { id: number, pending: PendingRequest::TurnStart };
            let waiting = crate::ui::state::delivered(sent, done, Ok(()));
            let begun = crate::ui::state::answered(waiting, response).state;
            let (_, stop) = crate::ui::state::interrupted(begun);
            &&& outcome == PromptView::Live(
                Some(
                    OutgoingView {
                        message: crate::runtime::app_server::request_message(
                            number,
                            "turn/start"@,
                            crate::runtime::app_server::turn_start_params(
                                thread_id,
                                state.model.cwd,
                                prompt,
                            ),
                        ),
                        delivery: done,
                    },
                ),
            )
            &&& begun.live_turn_id == Some(turn_id)
            &&& begun.is_busy()
            &&& stop == Some(
                OutgoingView {
                    message: crate::runtime::app_server::request_message(
                        next_number,
                        "turn/interrupt"@,
                        crate::runtime::app_server::turn_interrupt_params(thread_id, turn_id),
                    ),
                    delivery: DeliveryView::Request {
                        id: next_number,
                        pending: PendingRequest::TurnInterrupt,
                    },
                },
            )
        }),
{
    let number = state.next_id;
    let next_number = (number + 1) as u64;
    lemma_own_request(
        RootState { next_id: next_number, ..state },
        number,
        "turn/start"@,
        crate::runtime::app_server::turn_start_params(thread_id, state.model.cwd, prompt),
        PendingRequest::TurnStart,
    );
    let sent = crate::ui::state::prompted(state, prompt).0;
    let waiting = crate::ui::state::delivered(
        sent,
        DeliveryView::Request { id: number, pending: PendingRequest::TurnStart },
        Ok(()),
    );
    let begun = crate::ui::state::answered(waiting, response).state;
    lemma_own_request(
        RootState {
            next_id: (next_number + 1) as u64,
            stream_token: (begun.stream_token + 1) as usize,
            ..begun
        },
        next_number,
        "turn/interrupt"@,
        crate::runtime::app_server::turn_interrupt_params(thread_id, turn_id),
        PendingRequest::TurnInterrupt,
    );
}

/// An answer is matched with the request of its number, and with that one alone: the request
/// waits no longer, and every other one still does.
pub proof fn law_answers_matched_once(state: RootState, response: JsonView, number: u64)
    requires
        response.field("id"@) == Some(JsonView::Number(NumberView::Integer(number as int))),
    ensures
        crate::ui::state::answered(state, response).state.pending_requests
            == state.pending_requests.remove(number),
{
}

/// Without an app-server nothing is sent, whatever the user does and whatever still arrives.
pub proof fn law_nothing_sent_unconnected(
    state: RootState,
    prompt: Seq<char>,
    approval_id: Seq<char>,
    approved: bool,
    event: WireView,
)
    requires
        !state.connected,
    ensures
        !(crate::ui::state::prompted(state, prompt).1 is Live),
        crate::ui::state::interrupted(state).1 is None,
        crate::ui::state::resolved(state, approval_id, approved).1 is None,
        crate::ui::state::received(state, event).outgoing.len() == 0,
{
}

}
