//! What holds of the messages that go to the app-server and come from it.
use vstd::prelude::*;

use crate::json::{JsonView, NumberView};
use crate::runtime::app_server::{JsonRpcRequestBuilder, WireView};

verus! {

/// The names of the fields that tell messages apart are different.
pub proof fn lemma_field_names()
    ensures
        "id"@ != "method"@,
        "id"@ != "params"@,
        "id"@ != "result"@,
        "id"@ != "error"@,
        "method"@ != "params"@,
        "method"@ != "result"@,
        "method"@ != "error"@,
        "params"@ != "result"@,
        "params"@ != "error"@,
        "result"@ != "error"@,
{
    reveal_strlit("id");
    reveal_strlit("method");
    reveal_strlit("params");
    reveal_strlit("result");
    reveal_strlit("error");
    assert("id"@.len() == 2 && "method"@.len() == 6 && "params"@.len() == 6 && "result"@.len() == 6
        && "error"@.len() == 5);
    assert("method"@[0] == 'm' && "params"@[0] == 'p' && "result"@[0] == 'r');
}

/// A message with an identifier and a method asks for something unless it carries an answer; an
/// answer with an identifier is a response even if it names a method; without either, a method
/// makes it a notification. What is told apart so keeps the whole message, or the whole line.
pub proof fn law_messages_told_apart(message: JsonView, line: Seq<char>)
    ensures
        ({
            let event = crate::runtime::app_server::classified(message, line);
            let answer = message.has("result"@) || message.has("error"@);
            &&& event == WireView::ServerRequest(message) <==> message.has("id"@) && message.has(
                "method"@,
            ) && !answer
            &&& event == WireView::Response(message) <==> message.has("id"@) && answer
            &&& event == WireView::Notification(message) <==> message.has("method"@)
                && !message.has("id"@)
            &&& event == WireView::MalformedLine(line) <==> !message.has("method"@) && !(message.has(
                "id"@,
            ) && answer)
        }),
{
}

/// Each message that the client makes is told apart as what it is meant to be.
pub proof fn law_own_messages_told_apart(
    number: u64,
    method: Seq<char>,
    params: JsonView,
    request_id: JsonView,
    code: int,
    words: Seq<char>,
    line: Seq<char>,
)
    ensures
        crate::runtime::app_server::classified(
            crate::runtime::app_server::request_message(number, method, params),
            line,
        ) is ServerRequest,
        crate::runtime::app_server::classified(
            crate::runtime::app_server::initialized_message(),
            line,
        ) is Notification,
        crate::runtime::app_server::classified(
            crate::ui::state::response_message(request_id, params),
            line,
        ) is Response,
        crate::runtime::app_server::classified(
            crate::ui::state::error_message(request_id, code, words),
            line,
        ) is Response,
{
    lemma_field_names();
}

/// A request can be told by its number, carries its method and its parameters unchanged, and has no
/// other field.
pub proof fn law_requests_numbered(number: u64, method: Seq<char>, params: JsonView)
    ensures
        ({
            let request = crate::runtime::app_server::request_message(number, method, params);
            &&& request.field("id"@) matches Some(id) && id.as_unsigned() == Some(number)
            &&& request.text_at("method"@) == Some(method)
            &&& request.field("params"@) == Some(params)
            &&& forall|key: Seq<char>| #[trigger]
                request.has(key) ==> key == "id"@ || key == "method"@ || key == "params"@
        }),
{
    lemma_field_names();
}

/// Requests with different numbers never share an identifier, whatever they ask for.
pub proof fn law_requests_differ(
    a: u64,
    b: u64,
    first_method: Seq<char>,
    second_method: Seq<char>,
    first_params: JsonView,
    second_params: JsonView,
)
    requires
        a != b,
    ensures
        crate::runtime::app_server::request_message(a, first_method, first_params).field("id"@)
            != crate::runtime::app_server::request_message(b, second_method, second_params).field(
            "id"@,
        ),
{
    lemma_field_names();
}

/// Whether a builder makes a request with its next number and counts one further.
pub open spec fn builds(
    before: JsonRpcRequestBuilder,
    after: JsonRpcRequestBuilder,
    request: JsonView,
) -> bool {
    &&& before.next_id < u64::MAX
    &&& after.next_id == before.next_id + 1
    &&& exists|method: Seq<char>, params: JsonView|
        request == #[trigger] crate::runtime::app_server::request_message(
            before.next_id,
            method,
            params,
        )
}

/// The requests that one builder makes from its start on are numbered 1, 2, 3 and so on without a
/// gap, whatever they ask for, so that no two of them share an identifier.
pub proof fn law_requests_numbered_in_turn(
    builders: Seq<JsonRpcRequestBuilder>,
    requests: Seq<JsonView>,
)
    requires
        builders.len() == requests.len() + 1,
        builders[0].next_id == 1,
        forall|i: int|
            0 <= i < requests.len() ==> builds(
                builders[i],
                builders[i + 1],
                #[trigger] requests[i],
            ),
    ensures
        forall|i: int|
            0 <= i < requests.len() ==> (#[trigger] requests[i]).field("id"@) == Some(
                JsonView::Number(NumberView::Integer(i + 1)),
            ),
        forall|i: int, j: int|
            0 <= i < j < requests.len() ==> (#[trigger] requests[i]).field("id"@) != (
            #[trigger] requests[j]).field("id"@),
{
    lemma_field_names();
    assert forall|i: int| 0 <= i < requests.len() implies (#[trigger] requests[i]).field("id"@)
        == Some(JsonView::Number(NumberView::Integer(i + 1))) by {
        lemma_builder_counts(builders, requests, i);
        assert(builds(builders[i], builders[i + 1], requests[i]));
    }
}

proof fn lemma_builder_counts(
    builders: Seq<JsonRpcRequestBuilder>,
    requests: Seq<JsonView>,
    k: int,
)
    requires
        0 <= k <= requests.len(),
        builders.len() == requests.len() + 1,
        builders[0].next_id == 1,
        forall|i: int|
            0 <= i < requests.len() ==> builds(
                builders[i],
                builders[i + 1],
                #[trigger] requests[i],
            ),
    ensures
        builders[k].next_id == k + 1,
    decreases k,
{
    if k > 0 {
        lemma_builder_counts(builders, requests, k - 1);
        assert(builds(builders[k - 1], builders[k - 1 + 1], requests[k - 1]));
    }
}

/// Whether a request is identified by an integer or a text.
pub open spec fn is_plain_id(id: JsonView) -> bool {
    match id {
        JsonView::Number(NumberView::Integer(_)) => true,
        JsonView::Text(_) => true,
        _ => false,
    }
}

/// Two requests with different identifiers, each an integer or a text, ask for approvals that the
/// window can tell apart.
pub proof fn law_approval_ids_differ(a: JsonView, b: JsonView)
    requires
        is_plain_id(a),
        is_plain_id(b),
        a != b,
    ensures
        crate::runtime::app_server::approval_id(a) is Some,
        crate::runtime::app_server::approval_id(b) is Some,
        crate::runtime::app_server::approval_id(a) != crate::runtime::app_server::approval_id(b),
{
    reveal_strlit("n-");
    reveal_strlit("s-");
    let front = "app-server-approval-"@;
    let x = crate::runtime::app_server::approval_id(a)->0;
    let y = crate::runtime::app_server::approval_id(b)->0;
    let p = x.skip(front.len() as int);
    let q = y.skip(front.len() as int);
    if x == y {
        match (a, b) {
            (
                JsonView::Number(NumberView::Integer(m)),
                JsonView::Number(NumberView::Integer(n)),
            ) => {
                assert(p.skip(2) =~= crate::text::integer(m));
                assert(q.skip(2) =~= crate::text::integer(n));
                crate::text::lemma_integer_injective(m, n);
            },
            (JsonView::Text(s), JsonView::Text(t)) => {
                assert(p.skip(2) =~= crate::text::hex(vstd::utf8::encode_utf8(s)));
                assert(q.skip(2) =~= crate::text::hex(vstd::utf8::encode_utf8(t)));
                crate::text::lemma_hex_injective(
                    vstd::utf8::encode_utf8(s),
                    vstd::utf8::encode_utf8(t),
                );
                crate::text::lemma_utf8_injective(s, t);
            },
            (JsonView::Number(_), JsonView::Text(_)) => {
                assert(p[0] == 'n');
                assert(q[0] == 's');
            },
            (JsonView::Text(_), JsonView::Number(_)) => {
                assert(p[0] == 's');
                assert(q[0] == 'n');
            },
            _ => {},
        }
    }
}

/// A request asks for an approval if and only if it has an identifier that the window can show
/// and one of the three methods. The approval goes by that identifier.
pub proof fn law_asks_for_approval(request: JsonView)
    ensures
        crate::runtime::app_server::request_event(request) is Some <==> {
            &&& crate::runtime::app_server::request_approval_id(request) is Some
            &&& request.text_at("method"@) matches Some(method)
                && crate::runtime::app_server::asks_approval(method)
        },
        crate::runtime::app_server::request_event(request) matches Some(event) ==> {
            &&& event is ApprovalRequested
            &&& crate::runtime::app_server::request_approval_id(request) == Some(
                event->ApprovalRequested_id,
            )
        },
{
}

/// Whatever asks for an approval can be granted and denied, and nothing else can.
pub proof fn law_approvals_can_be_answered(method: Seq<char>, params: JsonView, approved: bool)
    ensures
        crate::runtime::app_server::approval_result(method, params, approved) is Some
            <==> crate::runtime::app_server::asks_approval(method),
{
}

/// A granted request for permissions is answered with the very permissions that were asked for,
/// a denied one with none, and either for the turn alone.
pub proof fn law_permissions_granted(params: JsonView, permissions: JsonView)
    requires
        params.field("permissions"@) == Some(permissions),
    ensures
        ({
            let method = "item/permissions/requestApproval"@;
            let yes = crate::runtime::app_server::approval_result(method, params, true);
            let no = crate::runtime::app_server::approval_result(method, params, false);
            &&& yes is Some && no is Some
            &&& yes->0.field("permissions"@) == Some(permissions)
            &&& no->0.field("permissions"@) == Some(JsonView::Object(Map::empty()))
            &&& yes->0.text_at("scope"@) == Some("turn"@)
            &&& no->0.text_at("scope"@) == Some("turn"@)
        }),
{
    reveal_strlit("permissions");
    reveal_strlit("scope");
    reveal_strlit("item/permissions/requestApproval");
    reveal_strlit("item/commandExecution/requestApproval");
    reveal_strlit("item/fileChange/requestApproval");
    assert("permissions"@.len() == 11 && "scope"@.len() == 5);
    assert("item/permissions/requestApproval"@[5] == 'p');
    assert("item/commandExecution/requestApproval"@[5] == 'c');
    assert("item/fileChange/requestApproval"@[5] == 'f');
}

}
