use codex_gpui_desktop::codec::{from_line, to_line};
use codex_gpui_desktop::json::Json;
use codex_gpui_desktop::reducer::AgentEvent;
use codex_gpui_desktop::runtime::app_server::{
    approval_event_id, approval_response_result, classify_wire_value, describe_permissions, hex_id,
    notification_to_agent_event, read_wire_line, server_request_to_agent_event, title_of_thread,
    write_wire_line, AppServerWireEvent, JsonRpcRequestBuilder,
};

fn json(text: &str) -> Json {
    from_line(text).unwrap()
}

fn at<'a>(value: &'a Json, key: &str) -> &'a Json {
    value.get(key).unwrap()
}

fn text_at<'a>(value: &'a Json, key: &str) -> &'a str {
    at(value, key).as_str().unwrap()
}

fn item<'a>(value: &'a Json, place: usize) -> &'a Json {
    match value {
        Json::Array(items) => &items[place],
        _ => panic!("no list"),
    }
}

fn notice(text: &str) -> Option<AgentEvent> {
    notification_to_agent_event(&json(text))
}

#[test]
fn builds_thread_start_for_selected_project() {
    let mut builder = JsonRpcRequestBuilder::default();

    let request = builder.thread_start("/tmp/project");

    assert_eq!(text_at(&request, "method"), "thread/start");
    assert_eq!(text_at(at(&request, "params"), "cwd"), "/tmp/project");
    assert_eq!(text_at(at(&request, "params"), "sandbox"), "workspaceWrite");
}

#[test]
fn builds_turn_start_with_text_input() {
    let mut builder = JsonRpcRequestBuilder::default();

    let request = builder.turn_start("thr_123", "/tmp/project", "hello");

    assert_eq!(text_at(&request, "method"), "turn/start");
    assert_eq!(text_at(at(&request, "params"), "threadId"), "thr_123");
    let input = item(at(at(&request, "params"), "input"), 0);
    assert_eq!(text_at(input, "type"), "text");
    assert_eq!(text_at(input, "text"), "hello");
}

#[test]
fn builds_interrupt_for_active_turn() {
    let mut builder = JsonRpcRequestBuilder::default();

    let request = builder.turn_interrupt("thr_123", "turn_456");

    assert_eq!(text_at(&request, "method"), "turn/interrupt");
    assert_eq!(text_at(at(&request, "params"), "threadId"), "thr_123");
    assert_eq!(text_at(at(&request, "params"), "turnId"), "turn_456");
}

#[test]
fn maps_agent_message_delta_notification() {
    let event = notification_to_agent_event(&json(
        r#"{
            "method": "item/agentMessage/delta",
            "params": {
                "threadId": "thr_123",
                "turnId": "turn_456",
                "itemId": "item_789",
                "delta": "hello"
            }
        }"#,
    ));

    assert_eq!(
        event,
        Some(AgentEvent::AgentMessageDelta {
            item_id: "item_789".to_string(),
            delta: "hello".to_string()
        })
    );
}

#[test]
fn maps_turn_completed_notification() {
    let event = notification_to_agent_event(&json(
        r#"{
            "method": "turn/completed",
            "params": {
                "threadId": "thr_123",
                "turn": { "id": "turn_456" }
            }
        }"#,
    ));

    assert_eq!(
        event,
        Some(AgentEvent::TurnCompleted {
            id: "turn_456".to_string()
        })
    );
}

#[test]
fn classifies_server_requests_before_responses() {
    let event = classify_wire_value(
        json(
            r#"{
                "id": 7,
                "method": "item/commandExecution/requestApproval",
                "params": {}
            }"#,
        ),
        "{}".to_string(),
    );

    assert!(matches!(event, AppServerWireEvent::ServerRequest(_)));
}

#[test]
fn maps_command_approval_request() {
    let event = server_request_to_agent_event(&json(
        r#"{
            "id": 7,
            "method": "item/commandExecution/requestApproval",
            "params": {
                "itemId": "item-1",
                "command": "cargo test",
                "cwd": "/tmp/project",
                "reason": "Needs to run tests"
            }
        }"#,
    ));

    assert_eq!(
        event,
        Some(AgentEvent::ApprovalRequested {
            id: "app-server-approval-n-7".to_string(),
            title: "Run command".to_string(),
            detail: "cargo test\ncwd: /tmp/project\nNeeds to run tests".to_string(),
            action: "Approve once or deny".to_string()
        })
    );
}

#[test]
fn approval_event_id_handles_string_ids() {
    let id = approval_event_id(&json(
        r#"{
            "id": "srv-1",
            "method": "item/fileChange/requestApproval",
            "params": {}
        }"#,
    ));

    assert_eq!(id, Some("app-server-approval-s-7372762d31".to_string()));
}

#[test]
fn builds_permission_approval_response() {
    let result = approval_response_result(
        "item/permissions/requestApproval",
        &json(
            r#"{
                "permissions": {
                    "network": { "enabled": true }
                }
            }"#,
        ),
        true,
    );

    assert_eq!(
        result.map(|result| to_line(&result)),
        Some(to_line(&json(
            r#"{
                "permissions": {
                    "network": { "enabled": true }
                },
                "scope": "turn"
            }"#
        )))
    );
}

#[test]
fn requests_are_written_whole_and_numbered_from_one() {
    let mut builder = JsonRpcRequestBuilder::default();
    assert_eq!(
        to_line(&builder.initialize()),
        "{\"id\":1,\"method\":\"initialize\",\"params\":{\"capabilities\":\
         {\"experimentalApi\":true},\"clientInfo\":{\"name\":\"codex_gpui_desktop\",\
         \"title\":\"Codex GPUI Desktop\",\"version\":\"0.1.0\"}}}"
    );
    assert_eq!(to_line(&builder.initialized_notification()), "{\"method\":\"initialized\"}");
    assert_eq!(
        to_line(&builder.thread_start("/p")),
        "{\"id\":2,\"method\":\"thread/start\",\"params\":{\"cwd\":\"/p\",\"personality\":\
         \"friendly\",\"sandbox\":\"workspaceWrite\",\"serviceName\":\"codex_gpui_desktop\",\
         \"sessionStartSource\":\"startup\"}}"
    );
    assert_eq!(
        to_line(&builder.turn_start("t", "/p", "hi")),
        "{\"id\":3,\"method\":\"turn/start\",\"params\":{\"cwd\":\"/p\",\"input\":\
         [{\"text\":\"hi\",\"type\":\"text\"}],\"threadId\":\"t\"}}"
    );
    assert_eq!(
        to_line(&builder.turn_interrupt("t", "u")),
        "{\"id\":4,\"method\":\"turn/interrupt\",\"params\":{\"threadId\":\"t\",\"turnId\":\"u\"}}"
    );
}

#[test]
fn messages_are_told_apart_by_their_fields() {
    let kind = |text: &str| match classify_wire_value(json(text), text.to_string()) {
        AppServerWireEvent::Response(_) => "response",
        AppServerWireEvent::ServerRequest(_) => "request",
        AppServerWireEvent::Notification(_) => "notification",
        AppServerWireEvent::MalformedLine(_) => "malformed",
        AppServerWireEvent::IoError(_) => "error",
    };
    assert_eq!(kind("{\"id\":1,\"method\":\"m\"}"), "request");
    assert_eq!(kind("{\"id\":1,\"result\":null}"), "response");
    assert_eq!(kind("{\"id\":1,\"error\":{}}"), "response");
    assert_eq!(kind("{\"id\":1,\"method\":\"m\",\"result\":1}"), "response");
    assert_eq!(kind("{\"method\":\"m\"}"), "notification");
    assert_eq!(kind("{\"method\":\"m\",\"result\":1}"), "notification");
    assert_eq!(kind("{\"id\":1}"), "malformed");
    assert_eq!(kind("{\"result\":1}"), "malformed");
    assert_eq!(kind("[1]"), "malformed");
}

#[test]
fn lines_are_read_as_messages() {
    match read_wire_line("{\"id\":3,\"result\":{\"x\":1}}".to_string()) {
        AppServerWireEvent::Response(message) => {
            assert_eq!(to_line(&message), "{\"id\":3,\"result\":{\"x\":1}}")
        }
        other => panic!("{other:?}"),
    }
    match read_wire_line("{broken".to_string()) {
        AppServerWireEvent::MalformedLine(line) => assert_eq!(line, "{broken"),
        other => panic!("{other:?}"),
    }
    match read_wire_line("  {}".to_string()) {
        AppServerWireEvent::MalformedLine(line) => assert_eq!(line, "  {}"),
        other => panic!("{other:?}"),
    }
}

#[test]
fn a_message_is_one_line() {
    let message = json("{\"text\":\"a\\nb\"}");
    assert_eq!(write_wire_line(&message), "{\"text\":\"a\\nb\"}\n");
    assert_eq!(write_wire_line(&Json::Null), "null\n");
}

#[test]
fn own_messages_are_read_as_what_they_are() {
    let mut builder = JsonRpcRequestBuilder::default();
    let line = write_wire_line(&builder.initialize());
    assert!(matches!(
        read_wire_line(line.trim_end().to_string()),
        AppServerWireEvent::ServerRequest(_)
    ));
    let line = write_wire_line(&builder.initialized_notification());
    assert!(matches!(
        read_wire_line(line.trim_end().to_string()),
        AppServerWireEvent::Notification(_)
    ));
}

#[test]
fn every_notification_has_its_event() {
    assert_eq!(
        notice("{\"method\":\"thread/started\",\"params\":{\"thread\":{\"id\":\"t\",\"preview\":\"P\"}}}"),
        Some(AgentEvent::ThreadStarted { id: "t".to_string(), title: "P".to_string() })
    );
    assert_eq!(
        notice("{\"method\":\"turn/started\",\"params\":{\"turn\":{\"id\":\"u\"}}}"),
        Some(AgentEvent::TurnStarted { id: "u".to_string() })
    );
    assert_eq!(
        notice("{\"method\":\"item/plan/delta\",\"params\":{\"itemId\":\"i\",\"delta\":\"d\"}}"),
        Some(AgentEvent::PlanDelta { item_id: "i".to_string(), delta: "d".to_string() })
    );
    for method in ["item/reasoningText/delta", "item/reasoningSummaryText/delta"] {
        assert_eq!(
            notice(&format!(
                "{{\"method\":\"{method}\",\"params\":{{\"itemId\":\"i\",\"delta\":\"d\"}}}}"
            )),
            Some(AgentEvent::ReasoningDelta { item_id: "i".to_string(), delta: "d".to_string() })
        );
    }
    assert_eq!(
        notice(
            "{\"method\":\"item/commandExecution/outputDelta\",\
             \"params\":{\"itemId\":\"i\",\"delta\":\"d\"}}"
        ),
        Some(AgentEvent::CommandOutputDelta { item_id: "i".to_string(), delta: "d".to_string() })
    );
    assert_eq!(
        notice("{\"method\":\"turn/diff/updated\",\"params\":{\"turnId\":\"u\",\"diff\":\"+x\"}}"),
        Some(AgentEvent::DiffUpdated {
            item_id: "diff-u".to_string(),
            path: "turn diff".to_string(),
            summary: "+x".to_string()
        })
    );
}

#[test]
fn missing_fields_are_filled_in() {
    assert_eq!(notice("{\"method\":\"thread/started\"}"), None);
    assert_eq!(
        notice("{\"method\":\"thread/started\",\"params\":{\"thread\":{\"preview\":\"\"}}}"),
        Some(AgentEvent::ThreadStarted {
            id: "unknown-thread".to_string(),
            title: "Codex thread".to_string()
        })
    );
    assert_eq!(
        notice("{\"method\":\"turn/started\"}"),
        Some(AgentEvent::TurnStarted { id: "unknown-turn".to_string() })
    );
    assert_eq!(
        notice("{\"method\":\"turn/completed\",\"params\":{\"turn\":{\"id\":5}}}"),
        Some(AgentEvent::TurnCompleted { id: "unknown-turn".to_string() })
    );
    assert_eq!(
        notice("{\"method\":\"item/agentMessage/delta\"}"),
        Some(AgentEvent::AgentMessageDelta {
            item_id: "agent-message".to_string(),
            delta: String::new()
        })
    );
    assert_eq!(
        notice("{\"method\":\"item/plan/delta\"}"),
        Some(AgentEvent::PlanDelta { item_id: "plan".to_string(), delta: String::new() })
    );
    assert_eq!(
        notice("{\"method\":\"item/reasoningText/delta\"}"),
        Some(AgentEvent::ReasoningDelta { item_id: "reasoning".to_string(), delta: String::new() })
    );
    assert_eq!(
        notice("{\"method\":\"item/commandExecution/outputDelta\"}"),
        Some(AgentEvent::CommandOutputDelta {
            item_id: "command".to_string(),
            delta: String::new()
        })
    );
    assert_eq!(
        notice("{\"method\":\"turn/diff/updated\"}"),
        Some(AgentEvent::DiffUpdated {
            item_id: "diff-turn".to_string(),
            path: "turn diff".to_string(),
            summary: String::new()
        })
    );
    assert_eq!(title_of_thread(&json("{}")), "Codex thread");
}

#[test]
fn other_notifications_have_no_event() {
    assert_eq!(notice("{\"method\":\"item/other\"}"), None);
    assert_eq!(notice("{\"method\":5}"), None);
    assert_eq!(notice("{}"), None);
    assert_eq!(notice("[]"), None);
}

#[test]
fn file_and_permission_requests_ask_for_approvals() {
    assert_eq!(
        server_request_to_agent_event(&json(
            "{\"id\":-2,\"method\":\"item/fileChange/requestApproval\",\
             \"params\":{\"grantRoot\":\"/r\",\"reason\":\"why\"}}"
        )),
        Some(AgentEvent::ApprovalRequested {
            id: "app-server-approval-n--2".to_string(),
            title: "Apply file changes".to_string(),
            detail: "Grant root: /r\nwhy".to_string(),
            action: "Approve changes or deny".to_string()
        })
    );
    assert_eq!(
        server_request_to_agent_event(&json(
            "{\"id\":\"\",\"method\":\"item/fileChange/requestApproval\"}"
        )),
        Some(AgentEvent::ApprovalRequested {
            id: "app-server-approval-s-".to_string(),
            title: "Apply file changes".to_string(),
            detail: "File change approval requested\nNo reason supplied".to_string(),
            action: "Approve changes or deny".to_string()
        })
    );
    assert_eq!(
        server_request_to_agent_event(&json(
            "{\"id\":1.5,\"method\":\"item/permissions/requestApproval\",\
             \"params\":{\"permissions\":{\"network\":1,\"fileSystem\":{\"read\":1}}}}"
        )),
        Some(AgentEvent::ApprovalRequested {
            id: "app-server-approval-n-1.5".to_string(),
            title: "Grant permissions".to_string(),
            detail: "cwd unavailable\nNo reason supplied\nRequested: network, file system read"
                .to_string(),
            action: "Grant for this turn or deny".to_string()
        })
    );
    assert_eq!(
        server_request_to_agent_event(&json(
            "{\"id\":0,\"method\":\"item/commandExecution/requestApproval\"}"
        )),
        Some(AgentEvent::ApprovalRequested {
            id: "app-server-approval-n-0".to_string(),
            title: "Run command".to_string(),
            detail: "unknown command\ncwd unavailable\nNo reason supplied".to_string(),
            action: "Approve once or deny".to_string()
        })
    );
}

#[test]
fn requests_without_a_usable_identifier_or_method_ask_for_nothing() {
    for text in [
        "{\"id\":null,\"method\":\"item/fileChange/requestApproval\"}",
        "{\"id\":true,\"method\":\"item/fileChange/requestApproval\"}",
        "{\"id\":[1],\"method\":\"item/fileChange/requestApproval\"}",
        "{\"method\":\"item/fileChange/requestApproval\"}",
        "{\"id\":1,\"method\":\"item/other\"}",
        "{\"id\":1,\"method\":7}",
        "{\"id\":1}",
    ] {
        assert_eq!(server_request_to_agent_event(&json(text)), None);
    }
    assert_eq!(approval_event_id(&json("{\"id\":null}")), None);
    assert_eq!(approval_event_id(&json("{}")), None);
}

#[test]
fn different_identifiers_make_different_approvals() {
    let ids = ["1", "-1", "10", "\"1\"", "\"31\"", "\"n-1\"", "\"\"", "\"é\"", "\"\\u0301\""];
    for a in ids {
        for b in ids {
            let first = approval_event_id(&json(&format!("{{\"id\":{a}}}")));
            let second = approval_event_id(&json(&format!("{{\"id\":{b}}}")));
            assert!(first.is_some());
            assert_eq!(first == second, a == b);
        }
    }
    assert_eq!(hex_id("é"), "c3a9");
}

#[test]
fn permissions_are_described() {
    let words = |text: &str| describe_permissions(Some(&json(text)));
    assert_eq!(describe_permissions(None), "No permission details supplied");
    assert_eq!(words("{}"), "Permission details are empty");
    assert_eq!(words("null"), "Permission details are empty");
    assert_eq!(words("{\"network\":null}"), "Requested: network");
    assert_eq!(words("{\"fileSystem\":{}}"), "Requested: file system");
    assert_eq!(words("{\"fileSystem\":{\"read\":1}}"), "Requested: file system read");
    assert_eq!(words("{\"fileSystem\":{\"write\":1}}"), "Requested: file system write");
    assert_eq!(
        words("{\"fileSystem\":{\"write\":1,\"read\":1},\"network\":{}}"),
        "Requested: network, file system read/write"
    );
}

#[test]
fn approvals_are_answered_by_their_method() {
    let answer = |method: &str, params: &str, approved: bool| {
        approval_response_result(method, &json(params), approved).map(|result| to_line(&result))
    };
    for method in ["item/commandExecution/requestApproval", "item/fileChange/requestApproval"] {
        assert_eq!(answer(method, "{}", true), Some("{\"decision\":\"accept\"}".to_string()));
        assert_eq!(answer(method, "{}", false), Some("{\"decision\":\"decline\"}".to_string()));
    }
    let method = "item/permissions/requestApproval";
    let asked = "{\"permissions\":{\"network\":{}}}";
    assert_eq!(
        answer(method, asked, false),
        Some("{\"permissions\":{},\"scope\":\"turn\"}".to_string())
    );
    assert_eq!(
        answer(method, asked, true),
        Some("{\"permissions\":{\"network\":{}},\"scope\":\"turn\"}".to_string())
    );
    assert_eq!(
        answer(method, "null", true),
        Some("{\"permissions\":{},\"scope\":\"turn\"}".to_string())
    );
    assert_eq!(answer("item/other", "{}", true), None);
}

#[test]
fn one_builder_never_gives_a_number_twice() {
    let mut builder = JsonRpcRequestBuilder::default();
    let mut numbers: Vec<Option<u64>> = Vec::new();
    for round in 0..3 {
        let request = match round {
            0 => builder.turn_interrupt("t", "u"),
            1 => builder.thread_start("/p"),
            _ => builder.turn_interrupt("t", "u"),
        };
        builder.initialized_notification();
        numbers.push(at(&request, "id").as_u64());
        match request {
            Json::Object(fields) => assert_eq!(fields.len(), 3),
            other => panic!("{other:?}"),
        }
    }
    numbers.push(at(&builder.initialize(), "id").as_u64());
    numbers.push(at(&builder.turn_start("t", "/p", "hi"), "id").as_u64());
    assert_eq!(numbers, vec![Some(1), Some(2), Some(3), Some(4), Some(5)]);
}
