//! What the messages of the app-server mean, field by field, and what the client's messages say.
use vstd::prelude::*;

use crate::json::{JsonView, NumberView};
use crate::reducer::EventView;
use crate::runtime::app_server::WireView;

verus! {

/// The text in a field of the parameters of a message.
pub open spec fn param(message: JsonView, key: Seq<char>) -> Option<Seq<char>> {
    message.field_or_null("params"@).text_at(key)
}

/// The methods of notifications are different.
pub proof fn lemma_methods_differ()
    ensures
        "thread/started"@.len() == 14 && "thread/started"@[1] == 'h',
        "turn/started"@.len() == 12,
        "turn/completed"@.len() == 14 && "turn/completed"@[1] == 'u',
        "item/agentMessage/delta"@.len() == 23,
        "item/plan/delta"@.len() == 15,
        "item/reasoningText/delta"@.len() == 24,
        "item/reasoningSummaryText/delta"@.len() == 31,
        "item/commandExecution/outputDelta"@.len() == 33,
        "turn/diff/updated"@.len() == 17,
        "item/commandExecution/requestApproval"@.len() == 37,
        "item/fileChange/requestApproval"@.len() == 31,
        "item/permissions/requestApproval"@.len() == 32,
{
    reveal_strlit("thread/started");
    reveal_strlit("turn/started");
    reveal_strlit("turn/completed");
    reveal_strlit("item/agentMessage/delta");
    reveal_strlit("item/plan/delta");
    reveal_strlit("item/reasoningText/delta");
    reveal_strlit("item/reasoningSummaryText/delta");
    reveal_strlit("item/commandExecution/outputDelta");
    reveal_strlit("turn/diff/updated");
    reveal_strlit("item/commandExecution/requestApproval");
    reveal_strlit("item/fileChange/requestApproval");
    reveal_strlit("item/permissions/requestApproval");
}

/// A text notification brings its whole text for the item that it names.
pub proof fn law_text_notifications_name_their_item(
    notification: JsonView,
    item_id: Seq<char>,
    delta: Seq<char>,
)
    requires
        param(notification, "itemId"@) == Some(item_id),
        param(notification, "delta"@) == Some(delta),
    ensures
        notification.text_at("method"@) == Some("item/agentMessage/delta"@)
            ==> crate::runtime::app_server::notification_event(notification) == Some(
            EventView::AgentMessageDelta { item_id, delta },
        ),
        notification.text_at("method"@) == Some("item/plan/delta"@)
            ==> crate::runtime::app_server::notification_event(notification) == Some(
            EventView::PlanDelta { item_id, delta },
        ),
        notification.text_at("method"@) == Some("item/reasoningText/delta"@)
            || notification.text_at("method"@) == Some("item/reasoningSummaryText/delta"@)
            ==> crate::runtime::app_server::notification_event(notification) == Some(
            EventView::ReasoningDelta { item_id, delta },
        ),
        notification.text_at("method"@) == Some("item/commandExecution/outputDelta"@)
            ==> crate::runtime::app_server::notification_event(notification) == Some(
            EventView::CommandOutputDelta { item_id, delta },
        ),
{
    lemma_methods_differ();
}

/// A text notification without an item goes to an item of its kind, and one without text brings
/// the empty text.
pub proof fn law_text_notifications_fill_in(notification: JsonView)
    ensures
        ({
            let event = crate::runtime::app_server::notification_event(notification);
            let method = notification.text_at("method"@);
            let item = param(notification, "itemId"@);
            let text = param(notification, "delta"@);
            &&& method == Some("item/agentMessage/delta"@) ==> {
                &&& event matches Some(EventView::AgentMessageDelta { item_id, delta })
                &&& item is None ==> item_id == "agent-message"@
                &&& item is Some ==> item == Some(item_id)
                &&& text is None ==> delta.len() == 0
                &&& text is Some ==> text == Some(delta)
            }
            &&& method == Some("item/plan/delta"@) ==> {
                &&& event matches Some(EventView::PlanDelta { item_id, delta })
                &&& item is None ==> item_id == "plan"@
                &&& item is Some ==> item == Some(item_id)
                &&& text is None ==> delta.len() == 0
                &&& text is Some ==> text == Some(delta)
            }
            &&& method == Some("item/reasoningText/delta"@) || method == Some(
                "item/reasoningSummaryText/delta"@,
            ) ==> {
                &&& event matches Some(EventView::ReasoningDelta { item_id, delta })
                &&& item is None ==> item_id == "reasoning"@
                &&& item is Some ==> item == Some(item_id)
                &&& text is None ==> delta.len() == 0
                &&& text is Some ==> text == Some(delta)
            }
            &&& method == Some("item/commandExecution/outputDelta"@) ==> {
                &&& event matches Some(EventView::CommandOutputDelta { item_id, delta })
                &&& item is None ==> item_id == "command"@
                &&& item is Some ==> item == Some(item_id)
                &&& text is None ==> delta.len() == 0
                &&& text is Some ==> text == Some(delta)
            }
        }),
{
    lemma_methods_differ();
}

/// A thread goes by its preview, or by a name of the client's where that is missing or empty.
pub proof fn law_threads_go_by_their_preview(thread: JsonView)
    ensures
        ({
            let title = crate::runtime::app_server::thread_title(thread);
            let preview = thread.text_at("preview"@);
            &&& preview matches Some(text) ==> (text.len() > 0 ==> title == text)
            &&& preview matches Some(text) ==> (text.len() == 0 ==> title == "Codex thread"@)
            &&& preview is None ==> title == "Codex thread"@
        }),
{
}

/// Notifications of threads, turns and diffs name theirs, or a stand-in where the name is missing;
/// a started thread that is not there at all means nothing.
pub proof fn law_other_notifications_name_theirs(notification: JsonView)
    ensures
        ({
            let event = crate::runtime::app_server::notification_event(notification);
            let method = notification.text_at("method"@);
            let params = notification.field_or_null("params"@);
            let turn = params.field_or_null("turn"@).text_at("id"@);
            &&& method == Some("thread/started"@) ==> match params.field("thread"@) {
                None => event is None,
                Some(thread) => {
                    &&& event matches Some(EventView::ThreadStarted { id, title })
                    &&& title == crate::runtime::app_server::thread_title(thread)
                    &&& thread.text_at("id"@) is Some ==> thread.text_at("id"@) == Some(id)
                    &&& thread.text_at("id"@) is None ==> id == "unknown-thread"@
                },
            }
            &&& method == Some("turn/started"@) ==> {
                &&& event matches Some(EventView::TurnStarted { id })
                &&& turn is Some ==> turn == Some(id)
                &&& turn is None ==> id == "unknown-turn"@
            }
            &&& method == Some("turn/completed"@) ==> {
                &&& event matches Some(EventView::TurnCompleted { id })
                &&& turn is Some ==> turn == Some(id)
                &&& turn is None ==> id == "unknown-turn"@
            }
            &&& method == Some("turn/diff/updated"@) ==> {
                &&& event matches Some(EventView::DiffUpdated { item_id, path, summary })
                &&& path == "turn diff"@
                &&& params.text_at("turnId"@) matches Some(id) ==> item_id == "diff-"@ + id
                &&& params.text_at("turnId"@) is None ==> item_id == "diff-"@ + "turn"@
                &&& params.text_at("diff"@) is Some ==> params.text_at("diff"@) == Some(summary)
                &&& params.text_at("diff"@) is None ==> summary.len() == 0
            }
        }),
{
    lemma_methods_differ();
}

/// Any other notification means nothing.
pub proof fn law_unknown_notifications_mean_nothing(notification: JsonView)
    requires
        notification.text_at("method"@) matches Some(method) ==> method != "thread/started"@
            && method != "turn/started"@ && method != "turn/completed"@ && method
            != "item/agentMessage/delta"@ && method != "item/plan/delta"@ && method
            != "item/reasoningText/delta"@ && method != "item/reasoningSummaryText/delta"@
            && method != "item/commandExecution/outputDelta"@ && method != "turn/diff/updated"@,
    ensures
        crate::runtime::app_server::notification_event(notification) is None,
{
}

/// A line that is no JSON is malformed, and stays whole; any other is what its message is.
pub proof fn law_lines_are_read(line: Seq<char>)
    ensures
        crate::codec::parsed(line) is None ==> crate::runtime::app_server::line_event(line)
            == WireView::MalformedLine(line),
        crate::codec::parsed(line) matches Some(message)
            ==> crate::runtime::app_server::line_event(line)
            == crate::runtime::app_server::classified(message, line),
{
}

/// The identifier of an approval spells out the number or the bytes of the text that identify its
/// request; nothing else identifies one.
pub proof fn law_approval_ids_are_spelled_out(id: JsonView, n: int, text: Seq<char>)
    ensures
        crate::runtime::app_server::approval_id(JsonView::Number(NumberView::Integer(n))) == Some(
            "app-server-approval-"@ + ("n-"@ + crate::text::integer(n)),
        ),
        crate::runtime::app_server::approval_id(JsonView::Text(text)) == Some(
            "app-server-approval-"@ + ("s-"@ + crate::text::hex(vstd::utf8::encode_utf8(text))),
        ),
        id matches JsonView::Number(NumberView::Float(number))
            ==> crate::runtime::app_server::approval_id(id) == Some(
            "app-server-approval-"@ + ("n-"@ + crate::codec::number_display(number)),
        ),
        !(id is Number) && !(id is Text) ==> crate::runtime::app_server::approval_id(id) is None,
{
}

/// What an approval of a command, of file changes or of permissions tells the user: what is asked
/// for, where, and why.
pub proof fn law_approvals_tell_what_is_asked(request: JsonView, id: Seq<char>)
    requires
        request.field("id"@) matches Some(request_id)
            && crate::runtime::app_server::approval_id(request_id) == Some(id),
    ensures
        ({
            let event = crate::runtime::app_server::request_event(request);
            let method = request.text_at("method"@);
            let params = request.field_or_null("params"@);
            let reason = match param(request, "reason"@) {
                Some(text) => text,
                None => "No reason supplied"@,
            };
            let cwd = match param(request, "cwd"@) {
                Some(text) => "cwd: "@ + text,
                None => "cwd unavailable"@,
            };
            &&& method == Some("item/commandExecution/requestApproval"@) ==> event == Some(
                EventView::ApprovalRequested {
                    id,
                    title: "Run command"@,
                    detail: (match param(request, "command"@) {
                        Some(text) => text,
                        None => "unknown command"@,
                    }) + "\n"@ + cwd + "\n"@ + reason,
                    action: "Approve once or deny"@,
                },
            )
            &&& method == Some("item/fileChange/requestApproval"@) ==> event == Some(
                EventView::ApprovalRequested {
                    id,
                    title: "Apply file changes"@,
                    detail: (match param(request, "grantRoot"@) {
                        Some(text) => "Grant root: "@ + text,
                        None => "File change approval requested"@,
                    }) + "\n"@ + reason,
                    action: "Approve changes or deny"@,
                },
            )
            &&& method == Some("item/permissions/requestApproval"@) ==> event == Some(
                EventView::ApprovalRequested {
                    id,
                    title: "Grant permissions"@,
                    detail: cwd + "\n"@ + reason + "\n"@ + crate::runtime::app_server::described(
                        params.field("permissions"@),
                    ),
                    action: "Grant for this turn or deny"@,
                },
            )
        }),
{
    lemma_methods_differ();
}

/// The words for permissions name the network if and only if it is asked for, and the files with
/// the kinds of access that are asked for.
pub proof fn law_permissions_are_described(wanted: JsonView)
    ensures
        ({
            let words = crate::runtime::app_server::described(Some(wanted));
            let files = wanted.field_or_null("fileSystem"@);
            let access = if files.has("read"@) {
                if files.has("write"@) {
                    "file system read/write"@
                } else {
                    "file system read"@
                }
            } else if files.has("write"@) {
                "file system write"@
            } else {
                "file system"@
            };
            &&& !wanted.has("network"@) && !wanted.has("fileSystem"@) ==> words
                == "Permission details are empty"@
            &&& wanted.has("network"@) && !wanted.has("fileSystem"@) ==> words
                == "Requested: network"@
            &&& !wanted.has("network"@) && wanted.has("fileSystem"@) ==> words == "Requested: "@
                + access
            &&& wanted.has("network"@) && wanted.has("fileSystem"@) ==> words
                == "Requested: network, "@ + access
            &&& crate::runtime::app_server::described(None) == "No permission details supplied"@
        }),
{
}

/// A command and file changes are accepted or declined, and nothing else is said.
pub proof fn law_decisions_are_accept_or_decline(method: Seq<char>, params: JsonView)
    requires
        method == "item/commandExecution/requestApproval"@ || method
            == "item/fileChange/requestApproval"@,
    ensures
        ({
            let yes = crate::runtime::app_server::approval_result(method, params, true);
            let no = crate::runtime::app_server::approval_result(method, params, false);
            &&& yes is Some && no is Some
            &&& yes->0.text_at("decision"@) == Some("accept"@)
            &&& no->0.text_at("decision"@) == Some("decline"@)
            &&& forall|key: Seq<char>| #[trigger] yes->0.has(key) ==> key == "decision"@
            &&& forall|key: Seq<char>| #[trigger] no->0.has(key) ==> key == "decision"@
        }),
{
    lemma_methods_differ();
}

/// Without permissions to grant, an approved request for them is answered with none; every answer
/// has the permissions and the scope, and nothing else.
pub proof fn law_permission_answers(params: JsonView, approved: bool)
    ensures
        ({
            let answer = crate::runtime::app_server::approval_result(
                "item/permissions/requestApproval"@,
                params,
                approved,
            );
            &&& answer is Some
            &&& answer->0.text_at("scope"@) == Some("turn"@)
            &&& answer->0.field("permissions"@) == match params.field("permissions"@) {
                Some(asked) if approved => Some(asked),
                _ => Some(JsonView::Object(Map::empty())),
            }
            &&& forall|key: Seq<char>| #[trigger]
                answer->0.has(key) ==> key == "permissions"@ || key == "scope"@
        }),
{
    lemma_methods_differ();
    reveal_strlit("permissions");
    reveal_strlit("scope");
    assert("permissions"@.len() == 11 && "scope"@.len() == 5);
}

/// The parameters of a new thread name the project, and those of a new turn the thread, the project
/// and the prompt, which is the only input.
pub proof fn law_params_say_what_is_asked(
    thread_id: Seq<char>,
    cwd: Seq<char>,
    prompt: Seq<char>,
    turn_id: Seq<char>,
)
    ensures
        ({
            let params = crate::runtime::app_server::thread_start_params(cwd);
            &&& params.text_at("cwd"@) == Some(cwd)
            &&& params.text_at("sandbox"@) == Some("workspaceWrite"@)
            &&& params.text_at("personality"@) == Some("friendly"@)
            &&& params.text_at("serviceName"@) == Some("codex_gpui_desktop"@)
            &&& params.text_at("sessionStartSource"@) == Some("startup"@)
            &&& forall|key: Seq<char>| #[trigger]
                params.has(key) ==> key == "cwd"@ || key == "sandbox"@ || key == "personality"@
                    || key == "serviceName"@ || key == "sessionStartSource"@
        }),
        ({
            let params = crate::runtime::app_server::turn_start_params(thread_id, cwd, prompt);
            &&& params.text_at("threadId"@) == Some(thread_id)
            &&& params.text_at("cwd"@) == Some(cwd)
            &&& params.field("input"@) matches Some(JsonView::Array(inputs)) && inputs.len() == 1
                && inputs[0].text_at("type"@) == Some("text"@) && inputs[0].text_at("text"@)
                == Some(prompt) && forall|key: Seq<char>| #[trigger]
                inputs[0].has(key) ==> key == "type"@ || key == "text"@
            &&& forall|key: Seq<char>| #[trigger]
                params.has(key) ==> key == "threadId"@ || key == "cwd"@ || key == "input"@
        }),
        ({
            let params = crate::runtime::app_server::turn_interrupt_params(thread_id, turn_id);
            &&& params.text_at("threadId"@) == Some(thread_id)
            &&& params.text_at("turnId"@) == Some(turn_id)
            &&& forall|key: Seq<char>| #[trigger]
                params.has(key) ==> key == "threadId"@ || key == "turnId"@
        }),
{
    reveal_strlit("cwd");
    reveal_strlit("sandbox");
    reveal_strlit("personality");
    reveal_strlit("serviceName");
    reveal_strlit("sessionStartSource");
    reveal_strlit("threadId");
    reveal_strlit("turnId");
    reveal_strlit("input");
    reveal_strlit("type");
    reveal_strlit("text");
    assert("cwd"@.len() == 3 && "sandbox"@.len() == 7 && "personality"@.len() == 11
        && "serviceName"@.len() == 11 && "sessionStartSource"@.len() == 18 && "threadId"@.len() == 8
        && "turnId"@.len() == 6 && "input"@.len() == 5);
    assert("personality"@[0] == 'p' && "serviceName"@[0] == 's');
    assert("type"@[1] == 'y' && "text"@[1] == 'e');
}

/// The introduction names the client and its version, and asks for the experimental interface.
pub proof fn law_introduction_names_the_client()
    ensures
        ({
            let params = crate::runtime::app_server::initialize_params();
            let info = params.field_or_null("clientInfo"@);
            &&& info.text_at("name"@) == Some("codex_gpui_desktop"@)
            &&& info.text_at("title"@) == Some("Codex GPUI Desktop"@)
            &&& info.text_at("version"@) == Some("0.1.0"@)
            &&& params.field_or_null("capabilities"@).field("experimentalApi"@) == Some(
                JsonView::Bool(true),
            )
            &&& crate::runtime::app_server::initialized_message().text_at("method"@) == Some(
                "initialized"@,
            )
        }),
{
    reveal_strlit("clientInfo");
    reveal_strlit("capabilities");
    reveal_strlit("name");
    reveal_strlit("title");
    reveal_strlit("version");
    assert("clientInfo"@.len() == 10 && "capabilities"@.len() == 12 && "name"@.len() == 4
        && "title"@.len() == 5 && "version"@.len() == 7);
}

/// A request that has no usable identifier, no method, or a method other than the three asks for no
/// approval, and nothing but those three can be answered.
pub proof fn law_nothing_else_asks(request: JsonView, method: Seq<char>, params: JsonView)
    ensures
        request.text_at("method"@) is None ==> crate::runtime::app_server::request_event(
            request,
        ) is None,
        request.field("id"@) is None ==> crate::runtime::app_server::request_event(
            request,
        ) is None && crate::runtime::app_server::request_approval_id(request) is None,
        request.field("id"@) matches Some(id)
            ==> crate::runtime::app_server::request_approval_id(request)
            == crate::runtime::app_server::approval_id(id),
        request.field("id"@) matches Some(id) ==> (!(id is Number) && !(id is Text)
            ==> crate::runtime::app_server::request_event(request) is None),
        method != "item/commandExecution/requestApproval"@ && method
            != "item/fileChange/requestApproval"@ && method != "item/permissions/requestApproval"@
            ==> {
            &&& request.text_at("method"@) == Some(method)
                ==> crate::runtime::app_server::request_event(request) is None
            &&& crate::runtime::app_server::approval_result(method, params, true) is None
            &&& crate::runtime::app_server::approval_result(method, params, false) is None
        },
{
}

}
