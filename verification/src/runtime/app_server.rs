//! The messages of the Codex app-server: what they are, what they mean, and how they are answered.
use vstd::prelude::*;

use crate::codec::{from_line, to_line};
use crate::json::{put, string_at, Json, JsonNumber, JsonView, NumberView};
use crate::reducer::{AgentEvent, EventView};
use crate::text::{hex_text, same_text};

verus! {

/// The version under which the client introduces itself: that of the package, as `Cargo.toml` has
/// it.
pub const CLIENT_VERSION: &'static str = "0.1.0";

/// What comes from the app-server.
#[derive(Debug)]
pub enum AppServerWireEvent {
    Response(Json),
    ServerRequest(Json),
    Notification(Json),
    MalformedLine(String),
    IoError(String),
}

/// What a wire event holds.
#[verifier::ext_equal]
pub enum WireView {
    Response(JsonView),
    ServerRequest(JsonView),
    Notification(JsonView),
    MalformedLine(Seq<char>),
    IoError(Seq<char>),
}

impl View for AppServerWireEvent {
    type V = WireView;

    open spec fn view(&self) -> WireView {
        match *self {
            AppServerWireEvent::Response(message) => WireView::Response(message@),
            AppServerWireEvent::ServerRequest(message) => WireView::ServerRequest(message@),
            AppServerWireEvent::Notification(message) => WireView::Notification(message@),
            AppServerWireEvent::MalformedLine(line) => WireView::MalformedLine(line@),
            AppServerWireEvent::IoError(error) => WireView::IoError(error@),
        }
    }
}

/// Whether a message carries a result or an error.
pub open spec fn is_answer(message: JsonView) -> bool {
    message.has("result"@) || message.has("error"@)
}

/// What a message is, by the fields it has.
pub open spec fn classified(message: JsonView, line: Seq<char>) -> WireView {
    if message.has("id"@) && message.has("method"@) && !is_answer(message) {
        WireView::ServerRequest(message)
    } else if message.has("id"@) && is_answer(message) {
        WireView::Response(message)
    } else if message.has("method"@) {
        WireView::Notification(message)
    } else {
        WireView::MalformedLine(line)
    }
}

/// What a line from the app-server is.
pub open spec fn line_event(line: Seq<char>) -> WireView {
    match crate::codec::parsed(line) {
        Some(message) => classified(message, line),
        None => WireView::MalformedLine(line),
    }
}

/// Tells what a message is by the fields it has.
pub fn classify_wire_value(value: Json, raw_line: String) -> (event: AppServerWireEvent)
    ensures
        event@ == classified(value@, raw_line@),
{
    let has_id = value.get("id").is_some();
    let has_method = value.get("method").is_some();
    let has_result_or_error = value.get("result").is_some() || value.get("error").is_some();

    if has_id && has_method && !has_result_or_error {
        AppServerWireEvent::ServerRequest(value)
    } else if has_id && has_result_or_error {
        AppServerWireEvent::Response(value)
    } else if has_method {
        AppServerWireEvent::Notification(value)
    } else {
        AppServerWireEvent::MalformedLine(raw_line)
    }
}

/// Reads a line from the app-server.
pub fn read_wire_line(line: String) -> (event: AppServerWireEvent)
    ensures
        event@ == line_event(line@),
{
    match from_line(line.as_str()) {
        Some(value) => classify_wire_value(value, line),
        None => AppServerWireEvent::MalformedLine(line),
    }
}

/// Writes a message as a line to the app-server: its JSON text, and the only line feed behind it.
pub fn write_wire_line(message: &Json) -> (line: String)
    ensures
        line@ == crate::codec::written(message@).push('\n'),
        forall|i: int| 0 <= i < line@.len() - 1 ==> line@[i] != '\n',
{
    let mut line = to_line(message);
    let ghost text = line@;
    line.push('\n');
    proof {
        assert forall|i: int| 0 <= i < line@.len() - 1 implies line@[i] != '\n' by {
            assert(text.contains(text[i]));
        }
    }
    line
}

/// Numbers the requests of the client.
#[derive(Debug, Clone)]
pub struct JsonRpcRequestBuilder {
    pub next_id: u64,
}

impl Default for JsonRpcRequestBuilder {
    fn default() -> (builder: JsonRpcRequestBuilder)
        ensures
            builder.next_id == 1,
    {
        JsonRpcRequestBuilder { next_id: 1 }
    }
}

/// A request with a number.
pub open spec fn request_message(id: u64, method: Seq<char>, params: JsonView) -> JsonView {
    JsonView::Object(
        map![
            "id"@ => JsonView::Number(NumberView::Integer(id as int)),
            "method"@ => JsonView::Text(method),
            "params"@ => params,
        ],
    )
}

/// How the client introduces itself.
pub open spec fn initialize_params() -> JsonView {
    JsonView::Object(
        map![
            "clientInfo"@ => JsonView::Object(
                map![
                    "name"@ => JsonView::Text("codex_gpui_desktop"@),
                    "title"@ => JsonView::Text("Codex GPUI Desktop"@),
                    "version"@ => JsonView::Text(CLIENT_VERSION@),
                ],
            ),
            "capabilities"@ => JsonView::Object(
                map!["experimentalApi"@ => JsonView::Bool(true)],
            ),
        ],
    )
}

/// What a new thread is started with.
pub open spec fn thread_start_params(cwd: Seq<char>) -> JsonView {
    JsonView::Object(
        map![
            "cwd"@ => JsonView::Text(cwd),
            "sandbox"@ => JsonView::Text("workspaceWrite"@),
            "personality"@ => JsonView::Text("friendly"@),
            "serviceName"@ => JsonView::Text("codex_gpui_desktop"@),
            "sessionStartSource"@ => JsonView::Text("startup"@),
        ],
    )
}

/// What a new turn is started with.
pub open spec fn turn_start_params(
    thread_id: Seq<char>,
    cwd: Seq<char>,
    prompt: Seq<char>,
) -> JsonView {
    JsonView::Object(
        map![
            "threadId"@ => JsonView::Text(thread_id),
            "cwd"@ => JsonView::Text(cwd),
            "input"@ => JsonView::Array(
                seq![
                    JsonView::Object(
                        map![
                            "type"@ => JsonView::Text("text"@),
                            "text"@ => JsonView::Text(prompt),
                        ],
                    ),
                ],
            ),
        ],
    )
}

/// What names a turn to break off.
pub open spec fn turn_interrupt_params(thread_id: Seq<char>, turn_id: Seq<char>) -> JsonView {
    JsonView::Object(
        map![
            "threadId"@ => JsonView::Text(thread_id),
            "turnId"@ => JsonView::Text(turn_id),
        ],
    )
}

/// What the client sends once the app-server has answered its introduction.
pub open spec fn initialized_message() -> JsonView {
    JsonView::Object(map!["method"@ => JsonView::Text("initialized"@)])
}

impl JsonRpcRequestBuilder {
    /// The request that introduces the client.
    pub fn initialize(&mut self) -> (request: Json)
        requires
            old(self).next_id < u64::MAX,
        ensures
            final(self).next_id == old(self).next_id + 1,
            request@ == request_message(old(self).next_id, "initialize"@, initialize_params()),
    {
        let mut info: Vec<(String, Json)> = Vec::new();
        put(&mut info, "name", Json::text("codex_gpui_desktop"));
        put(&mut info, "title", Json::text("Codex GPUI Desktop"));
        put(&mut info, "version", Json::text(CLIENT_VERSION));
        let mut capabilities: Vec<(String, Json)> = Vec::new();
        put(&mut capabilities, "experimentalApi", Json::Bool(true));
        let mut params: Vec<(String, Json)> = Vec::new();
        put(&mut params, "clientInfo", Json::Object(info));
        put(&mut params, "capabilities", Json::Object(capabilities));
        self.request("initialize", Json::Object(params))
    }

    /// The notification behind a successful introduction.
    pub fn initialized_notification(&self) -> (notification: Json)
        ensures
            notification@ == initialized_message(),
    {
        let mut fields: Vec<(String, Json)> = Vec::new();
        put(&mut fields, "method", Json::text("initialized"));
        Json::Object(fields)
    }

    /// The request that starts a thread in a project.
    pub fn thread_start(&mut self, cwd: &str) -> (request: Json)
        requires
            old(self).next_id < u64::MAX,
        ensures
            final(self).next_id == old(self).next_id + 1,
            request@ == request_message(
                old(self).next_id,
                "thread/start"@,
                thread_start_params(cwd@),
            ),
    {
        let mut params: Vec<(String, Json)> = Vec::new();
        put(&mut params, "cwd", Json::text(cwd));
        put(&mut params, "sandbox", Json::text("workspaceWrite"));
        put(&mut params, "personality", Json::text("friendly"));
        put(&mut params, "serviceName", Json::text("codex_gpui_desktop"));
        put(&mut params, "sessionStartSource", Json::text("startup"));
        self.request("thread/start", Json::Object(params))
    }

    /// The request that starts a turn with a prompt.
    pub fn turn_start(&mut self, thread_id: &str, cwd: &str, prompt: &str) -> (request: Json)
        requires
            old(self).next_id < u64::MAX,
        ensures
            final(self).next_id == old(self).next_id + 1,
            request@ == request_message(
                old(self).next_id,
                "turn/start"@,
                turn_start_params(thread_id@, cwd@, prompt@),
            ),
    {
        let mut input: Vec<(String, Json)> = Vec::new();
        put(&mut input, "type", Json::text("text"));
        put(&mut input, "text", Json::text(prompt));
        let mut inputs: Vec<Json> = Vec::new();
        let item = Json::Object(input);
        proof {
            crate::json::lemma_documents_push(inputs@, item);
        }
        inputs.push(item);
        let mut params: Vec<(String, Json)> = Vec::new();
        put(&mut params, "threadId", Json::text(thread_id));
        put(&mut params, "cwd", Json::text(cwd));
        let list = Json::Array(inputs);
        assert(list@->Array_0 =~= turn_start_params(
            thread_id@,
            cwd@,
            prompt@,
        )->Object_0["input"@]->Array_0);
        put(&mut params, "input", list);
        self.request("turn/start", Json::Object(params))
    }

    /// The request that breaks a turn off.
    pub fn turn_interrupt(&mut self, thread_id: &str, turn_id: &str) -> (request: Json)
        requires
            old(self).next_id < u64::MAX,
        ensures
            final(self).next_id == old(self).next_id + 1,
            request@ == request_message(
                old(self).next_id,
                "turn/interrupt"@,
                turn_interrupt_params(thread_id@, turn_id@),
            ),
    {
        let mut params: Vec<(String, Json)> = Vec::new();
        put(&mut params, "threadId", Json::text(thread_id));
        put(&mut params, "turnId", Json::text(turn_id));
        self.request("turn/interrupt", Json::Object(params))
    }

    /// A request with the next number.
    fn request(&mut self, method: &'static str, params: Json) -> (request: Json)
        requires
            old(self).next_id < u64::MAX,
        ensures
            final(self).next_id == old(self).next_id + 1,
            request@ == request_message(old(self).next_id, method@, params@),
    {
        let id = self.next_id;
        self.next_id += 1;
        let mut fields: Vec<(String, Json)> = Vec::new();
        put(&mut fields, "id", Json::Number(JsonNumber::Unsigned(id)));
        put(&mut fields, "method", Json::text(method));
        put(&mut fields, "params", params);
        Json::Object(fields)
    }
}

/// A text, or another where there is none.
pub open spec fn text_or(text: Option<Seq<char>>, other: Seq<char>) -> Seq<char> {
    match text {
        Some(t) => t,
        None => other,
    }
}

/// The title of a thread: its preview, unless that is missing or empty.
pub open spec fn thread_title(thread: JsonView) -> Seq<char> {
    match thread.text_at("preview"@) {
        Some(preview) => if preview.len() > 0 {
            preview
        } else {
            "Codex thread"@
        },
        None => "Codex thread"@,
    }
}

/// The identifier of the turn that a notification speaks of.
pub open spec fn turn_of(params: JsonView) -> Seq<char> {
    match params.field("turn"@) {
        Some(turn) => text_or(turn.text_at("id"@), "unknown-turn"@),
        None => "unknown-turn"@,
    }
}

/// The event that a notification with a method stands for.
pub open spec fn method_event(method: Seq<char>, params: JsonView) -> Option<EventView> {
    if method == "thread/started"@ {
        match params.field("thread"@) {
            Some(thread) => Some(
                EventView::ThreadStarted {
                    id: text_or(thread.text_at("id"@), "unknown-thread"@),
                    title: thread_title(thread),
                },
            ),
            None => None,
        }
    } else if method == "turn/started"@ {
        Some(EventView::TurnStarted { id: turn_of(params) })
    } else if method == "turn/completed"@ {
        Some(EventView::TurnCompleted { id: turn_of(params) })
    } else if method == "item/agentMessage/delta"@ {
        Some(
            EventView::AgentMessageDelta {
                item_id: text_or(params.text_at("itemId"@), "agent-message"@),
                delta: text_or(params.text_at("delta"@), Seq::empty()),
            },
        )
    } else if method == "item/plan/delta"@ {
        Some(
            EventView::PlanDelta {
                item_id: text_or(params.text_at("itemId"@), "plan"@),
                delta: text_or(params.text_at("delta"@), Seq::empty()),
            },
        )
    } else if method == "item/reasoningText/delta"@ || method
        == "item/reasoningSummaryText/delta"@ {
        Some(
            EventView::ReasoningDelta {
                item_id: text_or(params.text_at("itemId"@), "reasoning"@),
                delta: text_or(params.text_at("delta"@), Seq::empty()),
            },
        )
    } else if method == "item/commandExecution/outputDelta"@ {
        Some(
            EventView::CommandOutputDelta {
                item_id: text_or(params.text_at("itemId"@), "command"@),
                delta: text_or(params.text_at("delta"@), Seq::empty()),
            },
        )
    } else if method == "turn/diff/updated"@ {
        Some(
            EventView::DiffUpdated {
                item_id: "diff-"@ + text_or(params.text_at("turnId"@), "turn"@),
                path: "turn diff"@,
                summary: text_or(params.text_at("diff"@), Seq::empty()),
            },
        )
    } else {
        None
    }
}

/// The event that a notification stands for, where it stands for one.
pub open spec fn notification_event(notification: JsonView) -> Option<EventView> {
    match notification.text_at("method"@) {
        Some(method) => method_event(method, notification.field_or_null("params"@)),
        None => None,
    }
}

/// What an optional event holds.
pub open spec fn optional_event(event: Option<AgentEvent>) -> Option<EventView> {
    match event {
        Some(e) => Some(e@),
        None => None,
    }
}

/// A text, or another where there is none.
fn or_text(text: Option<String>, other: &str) -> (result: String)
    ensures
        result@ == text_or(crate::model::option_view(text), other@),
{
    match text {
        Some(t) => t,
        None => other.to_string(),
    }
}

/// A text, or the empty text where there is none.
fn or_empty(text: Option<String>) -> (result: String)
    ensures
        result@ == text_or(crate::model::option_view(text), Seq::empty()),
{
    match text {
        Some(t) => t,
        None => String::new(),
    }
}

/// The title of a thread: its preview, unless that is missing or empty.
pub fn title_of_thread(thread: &Json) -> (title: String)
    ensures
        title@ == thread_title(thread@),
{
    match string_at(thread, "preview") {
        Some(preview) => if preview.as_str().is_empty() {
            "Codex thread".to_string()
        } else {
            preview
        },
        None => "Codex thread".to_string(),
    }
}

/// The identifier of the turn that a notification speaks of.
fn id_of_turn(params: &Json) -> (id: String)
    ensures
        id@ == turn_of(params@),
{
    match params.get("turn") {
        Some(turn) => or_text(string_at(turn, "id"), "unknown-turn"),
        None => "unknown-turn".to_string(),
    }
}

/// The event that a notification stands for, where it stands for one.
pub fn notification_to_agent_event(notification: &Json) -> (event: Option<AgentEvent>)
    ensures
        optional_event(event) == notification_event(notification@),
{
    let method = match string_at(notification, "method") {
        Some(method) => method,
        None => return None,
    };
    let method = method.as_str();
    let null = Json::Null;
    let params = match notification.get("params") {
        Some(params) => params,
        None => &null,
    };

    if same_text(method, "thread/started") {
        match params.get("thread") {
            Some(thread) => Some(
                AgentEvent::ThreadStarted {
                    id: or_text(string_at(thread, "id"), "unknown-thread"),
                    title: title_of_thread(thread),
                },
            ),
            None => None,
        }
    } else if same_text(method, "turn/started") {
        Some(AgentEvent::TurnStarted { id: id_of_turn(params) })
    } else if same_text(method, "turn/completed") {
        Some(AgentEvent::TurnCompleted { id: id_of_turn(params) })
    } else if same_text(method, "item/agentMessage/delta") {
        Some(
            AgentEvent::AgentMessageDelta {
                item_id: or_text(string_at(params, "itemId"), "agent-message"),
                delta: or_empty(string_at(params, "delta")),
            },
        )
    } else if same_text(method, "item/plan/delta") {
        Some(
            AgentEvent::PlanDelta {
                item_id: or_text(string_at(params, "itemId"), "plan"),
                delta: or_empty(string_at(params, "delta")),
            },
        )
    } else if same_text(method, "item/reasoningText/delta") || same_text(
        method,
        "item/reasoningSummaryText/delta",
    ) {
        Some(
            AgentEvent::ReasoningDelta {
                item_id: or_text(string_at(params, "itemId"), "reasoning"),
                delta: or_empty(string_at(params, "delta")),
            },
        )
    } else if same_text(method, "item/commandExecution/outputDelta") {
        Some(
            AgentEvent::CommandOutputDelta {
                item_id: or_text(string_at(params, "itemId"), "command"),
                delta: or_empty(string_at(params, "delta")),
            },
        )
    } else if same_text(method, "turn/diff/updated") {
        let turn = or_text(string_at(params, "turnId"), "turn");
        Some(
            AgentEvent::DiffUpdated {
                item_id: "diff-".to_string().concat(turn.as_str()),
                path: "turn diff".to_string(),
                summary: or_empty(string_at(params, "diff")),
            },
        )
    } else {
        None
    }
}

/// The identifier under which the window knows an approval: it names the number or the text that
/// identifies the request.
pub open spec fn approval_id(request_id: JsonView) -> Option<Seq<char>> {
    match request_id {
        JsonView::Number(number) => Some(
            "app-server-approval-"@ + ("n-"@ + crate::codec::number_text(number)),
        ),
        JsonView::Text(text) => Some(
            "app-server-approval-"@ + ("s-"@ + crate::text::hex(vstd::utf8::encode_utf8(text))),
        ),
        _ => None,
    }
}

/// The identifier under which the window knows the approval that a request asks for.
pub open spec fn request_approval_id(request: JsonView) -> Option<Seq<char>> {
    match request.field("id"@) {
        Some(id) => approval_id(id),
        None => None,
    }
}

/// The bytes of a text in hexadecimal.
pub fn hex_id(value: &str) -> (encoded: String)
    ensures
        encoded@ == crate::text::hex(vstd::utf8::encode_utf8(value@)),
{
    hex_text(value.as_bytes())
}

/// The identifier under which the window knows the approval that a request asks for.
pub fn approval_event_id(request: &Json) -> (id: Option<String>)
    ensures
        crate::model::option_view(id) == request_approval_id(request@),
{
    let id = match request.get("id") {
        Some(id) => id,
        None => return None,
    };
    let name = match id {
        Json::Number(number) => "n-".to_string().concat(number.to_text().as_str()),
        Json::Text(value) => "s-".to_string().concat(hex_id(value.as_str()).as_str()),
        _ => return None,
    };
    Some("app-server-approval-".to_string().concat(name.as_str()))
}

/// What access to files is asked for.
pub open spec fn files_described(files: JsonView) -> Seq<char> {
    if files.has("read"@) && files.has("write"@) {
        "file system read/write"@
    } else if files.has("read"@) {
        "file system read"@
    } else if files.has("write"@) {
        "file system write"@
    } else {
        "file system"@
    }
}

/// What permissions are asked for, in words.
pub open spec fn described(permissions: Option<JsonView>) -> Seq<char> {
    match permissions {
        None => "No permission details supplied"@,
        Some(wanted) => match (wanted.has("network"@), wanted.field("fileSystem"@)) {
            (false, None) => "Permission details are empty"@,
            (true, None) => "Requested: network"@,
            (false, Some(files)) => "Requested: "@ + files_described(files),
            (true, Some(files)) => "Requested: network, "@ + files_described(files),
        },
    }
}

/// What permissions are asked for, in words.
pub fn describe_permissions(permissions: Option<&Json>) -> (words: String)
    ensures
        words@ == described(
            match permissions {
                Some(wanted) => Some(wanted@),
                None => None,
            },
        ),
{
    let wanted = match permissions {
        Some(wanted) => wanted,
        None => return "No permission details supplied".to_string(),
    };
    let network = wanted.get("network").is_some();
    match wanted.get("fileSystem") {
        Some(files) => {
            let read = files.get("read").is_some();
            let write = files.get("write").is_some();
            let access = if read && write {
                "file system read/write"
            } else if read {
                "file system read"
            } else if write {
                "file system write"
            } else {
                "file system"
            };
            if network {
                "Requested: network, ".to_string().concat(access)
            } else {
                "Requested: ".to_string().concat(access)
            }
        },
        None => if network {
            "Requested: network".to_string()
        } else {
            "Permission details are empty".to_string()
        },
    }
}

/// A text behind a heading, or another where there is none.
pub open spec fn headed(
    heading: Seq<char>,
    text: Option<Seq<char>>,
    other: Seq<char>,
) -> Seq<char> {
    match text {
        Some(t) => heading + t,
        None => other,
    }
}

/// A text behind a heading, or another where there is none.
fn headed_text(heading: &str, text: Option<String>, other: &str) -> (result: String)
    ensures
        result@ == headed(heading@, crate::model::option_view(text), other@),
{
    match text {
        Some(t) => heading.to_string().concat(t.as_str()),
        None => other.to_string(),
    }
}

/// The approval that a request with a method asks for.
pub open spec fn asked_approval(
    method: Seq<char>,
    params: JsonView,
    id: Seq<char>,
) -> Option<EventView> {
    let reason = text_or(params.text_at("reason"@), "No reason supplied"@);
    let cwd = headed("cwd: "@, params.text_at("cwd"@), "cwd unavailable"@);
    if method == "item/commandExecution/requestApproval"@ {
        Some(
            EventView::ApprovalRequested {
                id,
                title: "Run command"@,
                detail: text_or(params.text_at("command"@), "unknown command"@) + "\n"@ + cwd
                    + "\n"@ + reason,
                action: "Approve once or deny"@,
            },
        )
    } else if method == "item/fileChange/requestApproval"@ {
        Some(
            EventView::ApprovalRequested {
                id,
                title: "Apply file changes"@,
                detail: headed(
                    "Grant root: "@,
                    params.text_at("grantRoot"@),
                    "File change approval requested"@,
                ) + "\n"@ + reason,
                action: "Approve changes or deny"@,
            },
        )
    } else if method == "item/permissions/requestApproval"@ {
        Some(
            EventView::ApprovalRequested {
                id,
                title: "Grant permissions"@,
                detail: cwd + "\n"@ + reason + "\n"@ + described(params.field("permissions"@)),
                action: "Grant for this turn or deny"@,
            },
        )
    } else {
        None
    }
}

/// The approval that a request asks for, where it asks for one and can be answered.
pub open spec fn request_event(request: JsonView) -> Option<EventView> {
    match (request.text_at("method"@), request_approval_id(request)) {
        (Some(method), Some(id)) => asked_approval(method, request.field_or_null("params"@), id),
        _ => None,
    }
}

/// The approval that a request asks for, where it asks for one and can be answered.
pub fn server_request_to_agent_event(request: &Json) -> (event: Option<AgentEvent>)
    ensures
        optional_event(event) == request_event(request@),
{
    let method = match string_at(request, "method") {
        Some(method) => method,
        None => return None,
    };
    let method = method.as_str();
    let null = Json::Null;
    let params = match request.get("params") {
        Some(params) => params,
        None => &null,
    };
    let id = match approval_event_id(request) {
        Some(id) => id,
        None => return None,
    };

    if same_text(method, "item/commandExecution/requestApproval") {
        let command = or_text(string_at(params, "command"), "unknown command");
        let cwd = headed_text("cwd: ", string_at(params, "cwd"), "cwd unavailable");
        let reason = or_text(string_at(params, "reason"), "No reason supplied");
        Some(
            AgentEvent::ApprovalRequested {
                id,
                title: "Run command".to_string(),
                detail: command.concat("\n").concat(cwd.as_str()).concat("\n").concat(
                    reason.as_str(),
                ),
                action: "Approve once or deny".to_string(),
            },
        )
    } else if same_text(method, "item/fileChange/requestApproval") {
        let grant_root = headed_text(
            "Grant root: ",
            string_at(params, "grantRoot"),
            "File change approval requested",
        );
        let reason = or_text(string_at(params, "reason"), "No reason supplied");
        Some(
            AgentEvent::ApprovalRequested {
                id,
                title: "Apply file changes".to_string(),
                detail: grant_root.concat("\n").concat(reason.as_str()),
                action: "Approve changes or deny".to_string(),
            },
        )
    } else if same_text(method, "item/permissions/requestApproval") {
        let cwd = headed_text("cwd: ", string_at(params, "cwd"), "cwd unavailable");
        let reason = or_text(string_at(params, "reason"), "No reason supplied");
        let permissions = describe_permissions(params.get("permissions"));
        Some(
            AgentEvent::ApprovalRequested {
                id,
                title: "Grant permissions".to_string(),
                detail: cwd.concat("\n").concat(reason.as_str()).concat("\n").concat(
                    permissions.as_str(),
                ),
                action: "Grant for this turn or deny".to_string(),
            },
        )
    } else {
        None
    }
}

/// The answer to a question that can only be accepted or declined.
pub open spec fn decision(approved: bool) -> JsonView {
    JsonView::Object(
        map![
            "decision"@ => JsonView::Text(
                if approved {
                    "accept"@
                } else {
                    "decline"@
                },
            ),
        ],
    )
}

/// The permissions that an answer grants: what was asked for, or none.
pub open spec fn granted(params: JsonView, approved: bool) -> JsonView {
    match params.field("permissions"@) {
        Some(permissions) => if approved {
            permissions
        } else {
            JsonView::Object(Map::empty())
        },
        None => JsonView::Object(Map::empty()),
    }
}

/// Whether the app-server asks for an approval with a method.
pub open spec fn asks_approval(method: Seq<char>) -> bool {
    ||| method == "item/commandExecution/requestApproval"@
    ||| method == "item/fileChange/requestApproval"@
    ||| method == "item/permissions/requestApproval"@
}

/// The result that answers an approval request.
pub open spec fn approval_result(
    method: Seq<char>,
    params: JsonView,
    approved: bool,
) -> Option<JsonView> {
    if method == "item/commandExecution/requestApproval"@ || method
        == "item/fileChange/requestApproval"@ {
        Some(decision(approved))
    } else if method == "item/permissions/requestApproval"@ {
        Some(
            JsonView::Object(
                map![
                    "permissions"@ => granted(params, approved),
                    "scope"@ => JsonView::Text("turn"@),
                ],
            ),
        )
    } else {
        None
    }
}

/// What an optional document holds.
pub open spec fn optional_document(json: Option<Json>) -> Option<JsonView> {
    match json {
        Some(j) => Some(j@),
        None => None,
    }
}

/// The result that answers an approval request.
pub fn approval_response_result(method: &str, params: &Json, approved: bool) -> (result: Option<
    Json,
>)
    ensures
        optional_document(result) == approval_result(method@, params@, approved),
{
    if same_text(method, "item/commandExecution/requestApproval") || same_text(
        method,
        "item/fileChange/requestApproval",
    ) {
        let mut fields: Vec<(String, Json)> = Vec::new();
        put(
            &mut fields,
            "decision",
            Json::text(
                if approved {
                    "accept"
                } else {
                    "decline"
                },
            ),
        );
        Some(Json::Object(fields))
    } else if same_text(method, "item/permissions/requestApproval") {
        let permissions = if approved {
            match params.get("permissions") {
                Some(permissions) => permissions.copy(),
                None => Json::Object(Vec::new()),
            }
        } else {
            Json::Object(Vec::new())
        };
        let mut fields: Vec<(String, Json)> = Vec::new();
        put(&mut fields, "permissions", permissions);
        put(&mut fields, "scope", Json::text("turn"));
        Some(Json::Object(fields))
    } else {
        None
    }
}

}
