//! The MCP "Streamable HTTP" endpoint: JSON-RPC routing, protocol negotiation and
//! the translation of tool calls into plugin commands.

use vstd::prelude::*;
use crate::bridge::{CommandKind, CommandSpec};
use crate::json::{
    json_as_array, json_as_str, json_clone, json_index, json_null, json_of, json_quote,
    json_escape, json_quoted, obj_lookup, parse_json, parsed_json, JsonSpec,
};
use crate::tools::{spec_tools, tool_names};
use crate::text::{
    lemma_lex_irreflexive, lemma_lex_not_less, lemma_lex_transitive, lex_less_from, lex_less, starts_with, starts_with_chars, str_eq, str_less, to_chars};

verus! {

// ── Protocol version ─────────────────────────────────────────────

/// The protocol version answered to a client that asks for `client`: the newest
/// one this server speaks unless the client's is older.
pub open spec fn spec_negotiate_protocol(client: Seq<char>) -> Seq<char> {
    if lex_less(client, "2025-03-26"@) {
        "2024-11-05"@
    } else {
        "2025-03-26"@
    }
}

/// Chooses the protocol version that best fits the client's.
pub fn negotiate_protocol(client_version: &str) -> (r: &'static str)
    ensures
        r@ == spec_negotiate_protocol(client_version@),
{
    if str_less(client_version, "2025-03-26") {
        "2024-11-05"
    } else {
        "2025-03-26"
    }
}

// ── Tool calls ───────────────────────────────────────────────────

/// What a tool call turns into: a command for the plugin, or an immediate answer.
pub enum ToolDispatch {
    Send(CommandKind),
    Reply(String),
}

pub enum DispatchSpec {
    Send(CommandSpec),
    Reply(Seq<char>),
}

impl View for ToolDispatch {
    type V = DispatchSpec;

    open spec fn view(&self) -> DispatchSpec {
        match self {
            ToolDispatch::Send(c) => DispatchSpec::Send(c@),
            ToolDispatch::Reply(s) => DispatchSpec::Reply(s@),
        }
    }
}

/// The string elements of a JSON array, in order; other elements are skipped.
pub open spec fn string_items(items: Seq<JsonSpec>) -> Seq<Seq<char>>
    decreases items.len(),
{
    if items.len() == 0 {
        Seq::empty()
    } else {
        let rest = string_items(items.drop_last());
        match items.last() {
            JsonSpec::String(s) => rest.push(s),
            _ => rest,
        }
    }
}

/// The Luau snippets of a `batch_run` call.
pub open spec fn spec_codes(args: JsonSpec) -> Seq<Seq<char>> {
    match args.at("codes"@) {
        JsonSpec::Array(items) => string_items(items),
        _ => Seq::empty(),
    }
}

/// The Luau program that creates a script; all but the parent path arrive already
/// written as JSON string literals, which are valid Luau strings.
pub open spec fn spec_insert_script_code(
    script_type_json: Seq<char>,
    name_json: Seq<char>,
    source_json: Seq<char>,
    parent: Seq<char>,
) -> Seq<char> {
    "local s = Instance.new("@ + script_type_json + ")\ns.Name   = "@ + name_json
        + "\ns.Source = "@ + source_json + "\ns.Parent = "@ + parent
        + "\nprint(\"✅ \" .. s.Name)"@
}

/// The answer to any tool but `status` while the plugin is not connected.
pub open spec fn offline_message() -> Seq<char> {
    "❌ Plugin chưa kết nối. Mở Roblox Studio và click Connect trong widget Studio Bridge."@
}

/// The Luau program that the `status` tool runs.
pub open spec fn status_code() -> Seq<char> {
    "print(\"✅ \"..tostring(version()))"@
}

/// What a call of tool `name` with arguments `args` turns into.
pub open spec fn spec_dispatch(online: bool, name: Seq<char>, args: JsonSpec) -> DispatchSpec {
    if !online && name != "status"@ {
        DispatchSpec::Reply(offline_message())
    } else if name == "snapshot"@ {
        DispatchSpec::Send(CommandSpec::Snapshot)
    } else if name == "get_scripts"@ {
        DispatchSpec::Send(CommandSpec::GetScripts)
    } else if name == "status"@ {
        DispatchSpec::Send(CommandSpec::RunCode(status_code()))
    } else if name == "run_code"@ {
        DispatchSpec::Send(CommandSpec::RunCode(args.at("code"@).str_or(""@)))
    } else if name == "get_instances"@ {
        DispatchSpec::Send(CommandSpec::GetInstances(args.at("path"@).str_or("game"@)))
    } else if name == "insert_part"@ {
        DispatchSpec::Send(
            CommandSpec::InsertPart(
                args.at("name"@).str_or("Part"@),
                args.at("parent"@).str_or("game.Workspace"@),
            ),
        )
    } else if name == "insert_script"@ {
        DispatchSpec::Send(
            CommandSpec::RunCode(
                spec_insert_script_code(
                    json_quoted(args.at("script_type"@).str_or("Script"@)),
                    json_quoted(args.at("name"@).str_or("Script"@)),
                    json_quoted(args.at("source"@).str_or(""@)),
                    args.at("parent"@).str_or("game.ServerScriptService"@),
                ),
            ),
        )
    } else if name == "batch_run"@ {
        DispatchSpec::Send(CommandSpec::BatchRun(spec_codes(args)))
    } else {
        DispatchSpec::Reply("❌ Unknown tool: "@ + name)
    }
}

/// `v[key].as_str().unwrap_or(default)`, where a missing `v` reads as `null`.
pub fn str_at(v: Option<&serde_json::Value>, key: &str, default: &str) -> (r: String)
    ensures
        r@ == (match v {
            Some(x) => json_of(*x),
            None => JsonSpec::Null,
        }).at(key@).str_or(default@),
{
    match v {
        None => String::from_str(default),
        Some(x) => match json_index(x, key) {
            None => String::from_str(default),
            Some(f) => match json_as_str(f) {
                Some(s) => String::from_str(s),
                None => String::from_str(default),
            },
        },
    }
}

/// The string elements of `args["codes"]` when it is an array.
fn codes_of(args: &serde_json::Value) -> (r: Vec<String>)
    ensures
        r@.map_values(|c: String| c@) == spec_codes(json_of(*args)),
{
    let arr = match json_index(args, "codes") {
        None => return Vec::new(),
        Some(c) => match json_as_array(c) {
            None => return Vec::new(),
            Some(a) => a,
        },
    };
    let ghost items = arr@.map_values(|x: serde_json::Value| json_of(x));
    let mut out: Vec<String> = Vec::new();
    let mut i: usize = 0;
    while i < arr.len()
        invariant
            i <= arr@.len(),
            items == arr@.map_values(|x: serde_json::Value| json_of(x)),
            out@.map_values(|c: String| c@) == string_items(items.take(i as int)),
        decreases arr@.len() - i,
    {
        assert(items.take(i + 1).drop_last() =~= items.take(i as int));
        assert(items.take(i + 1).last() == json_of(arr@[i as int]));
        match json_as_str(&arr[i]) {
            Some(s) => {
                out.push(String::from_str(s));
                assert(out@.map_values(|c: String| c@) =~= string_items(items.take(i as int)).push(
                    s@,
                ));
            },
            None => {},
        }
        i = i + 1;
    }
    assert(items.take(arr@.len() as int) =~= items);
    out
}

/// The Luau program that creates a script (see `spec_insert_script_code`).
pub fn insert_script_code(
    script_type_json: &str,
    name_json: &str,
    source_json: &str,
    parent: &str,
) -> (r: String)
    ensures
        r@ == spec_insert_script_code(script_type_json@, name_json@, source_json@, parent@),
{
    let r = String::from_str("local s = Instance.new(").concat(script_type_json).concat(
        ")\ns.Name   = ",
    ).concat(name_json).concat("\ns.Source = ").concat(source_json).concat(
        "\ns.Parent = ",
    ).concat(parent).concat("\nprint(\"✅ \" .. s.Name)");
    r
}

/// Translates a call of tool `name` into a plugin command, or answers it at once
/// (plugin offline, unknown tool).
pub fn dispatch(plugin_online: bool, name: &str, args: &serde_json::Value) -> (r: ToolDispatch)
    ensures
        r@ == spec_dispatch(plugin_online, name@, json_of(*args)),
{
    if !plugin_online && !str_eq(name, "status") {
        return ToolDispatch::Reply(
            String::from_str(
                "❌ Plugin chưa kết nối. Mở Roblox Studio và click Connect trong widget Studio Bridge.",
            ),
        );
    }
    let a = Some(args);
    if str_eq(name, "snapshot") {
        ToolDispatch::Send(CommandKind::Snapshot {  })
    } else if str_eq(name, "get_scripts") {
        ToolDispatch::Send(CommandKind::GetScripts {  })
    } else if str_eq(name, "status") {
        ToolDispatch::Send(
            CommandKind::RunCode { code: String::from_str("print(\"✅ \"..tostring(version()))") },
        )
    } else if str_eq(name, "run_code") {
        ToolDispatch::Send(CommandKind::RunCode { code: str_at(a, "code", "") })
    } else if str_eq(name, "get_instances") {
        ToolDispatch::Send(CommandKind::GetInstances { path: str_at(a, "path", "game") })
    } else if str_eq(name, "insert_part") {
        ToolDispatch::Send(
            CommandKind::InsertPart {
                name: str_at(a, "name", "Part"),
                parent: str_at(a, "parent", "game.Workspace"),
            },
        )
    } else if str_eq(name, "insert_script") {
        let script_name = str_at(a, "name", "Script");
        let script_type = str_at(a, "script_type", "Script");
        let parent = str_at(a, "parent", "game.ServerScriptService");
        let source = str_at(a, "source", "");
        let source_json = match json_quote(source.as_str()) {
            Ok(q) => q,
            Err(_) => String::from_str("\"\""),
        };
        let type_json = json_quote(script_type.as_str()).unwrap();
        let name_json = json_quote(script_name.as_str()).unwrap();
        let code = insert_script_code(
            type_json.as_str(),
            name_json.as_str(),
            source_json.as_str(),
            parent.as_str(),
        );
        ToolDispatch::Send(CommandKind::RunCode { code })
    } else if str_eq(name, "batch_run") {
        let codes = codes_of(args);
        ToolDispatch::Send(CommandKind::BatchRun { codes })
    } else {
        ToolDispatch::Reply(String::from_str("❌ Unknown tool: ").concat(name))
    }
}

/// The text a tool call answers: the plugin's output, or the error behind a cross.
pub fn tool_text(reply: Result<String, String>) -> (r: String)
    ensures
        r@ == (match reply {
            Ok(o) => o@,
            Err(e) => "❌ "@ + e@,
        }),
{
    match reply {
        Ok(o) => o,
        Err(e) => String::from_str("❌ ").concat(e.as_str()),
    }
}

// ── JSON-RPC routing ─────────────────────────────────────────────

/// The `result` member of a successful answer.
pub enum McpResult {
    /// `initialize`: the negotiated protocol version, who the server is, what it
    /// offers (tools, whose list never changes) and how to use it.
    Initialize {
        protocol_version: &'static str,
        server_name: &'static str,
        server_version: &'static str,
        tools_list_changed: bool,
        instructions: &'static str,
    },
    /// `tools/list`: the tool catalogue.
    ToolsList,
    /// `tools/call`: one text content item.
    ToolText { text: String },
    /// `ping`: an empty object.
    Empty,
}

/// The body of an HTTP answer.
pub enum McpBody {
    /// No body at all.
    NoBody,
    /// A JSON-RPC error object.
    Error { id: serde_json::Value, code: i64, message: String },
    /// A JSON-RPC result object.
    Success { id: serde_json::Value, result: McpResult },
}

/// An HTTP answer of the MCP endpoint.
pub struct McpResponse {
    pub status: u16,
    /// Fixed headers, as name and value.
    pub headers: Vec<(&'static str, &'static str)>,
    /// Echoed in the `Mcp-Session-Id` header.
    pub session_id: Option<String>,
    pub body: McpBody,
}

/// What the endpoint does with one POSTed request.
pub enum McpStep {
    /// Answer at once.
    Respond(McpResponse),
    /// Run tool `name` with `args`, then answer with `tool_call_response`.
    CallTool { id: serde_json::Value, session_id: String, name: String, args: serde_json::Value },
}

pub struct InitializeSpec {
    pub protocol_version: Seq<char>,
    pub server_name: Seq<char>,
    pub server_version: Seq<char>,
    pub tools_list_changed: bool,
    pub instructions: Seq<char>,
}

pub enum ResultSpec {
    Initialize(InitializeSpec),
    ToolsList,
    ToolText(Seq<char>),
    Empty,
}

pub enum BodySpec {
    NoBody,
    Error(JsonSpec, int, Seq<char>),
    Success(JsonSpec, ResultSpec),
}

pub struct ResponseSpec {
    pub status: u16,
    pub headers: Seq<(Seq<char>, Seq<char>)>,
    pub session_id: Option<Seq<char>>,
    pub body: BodySpec,
}

pub enum StepSpec {
    Respond(ResponseSpec),
    CallTool(JsonSpec, Seq<char>, Seq<char>, JsonSpec),
}

impl View for McpResult {
    type V = ResultSpec;

    open spec fn view(&self) -> ResultSpec {
        match self {
            McpResult::Initialize {
                protocol_version,
                server_name,
                server_version,
                tools_list_changed,
                instructions,
            } => ResultSpec::Initialize(
                InitializeSpec {
                    protocol_version: protocol_version@,
                    server_name: server_name@,
                    server_version: server_version@,
                    tools_list_changed: *tools_list_changed,
                    instructions: instructions@,
                },
            ),
            McpResult::ToolsList => ResultSpec::ToolsList,
            McpResult::ToolText { text } => ResultSpec::ToolText(text@),
            McpResult::Empty => ResultSpec::Empty,
        }
    }
}

impl View for McpBody {
    type V = BodySpec;

    open spec fn view(&self) -> BodySpec {
        match self {
            McpBody::NoBody => BodySpec::NoBody,
            McpBody::Error { id, code, message } => BodySpec::Error(
                json_of(*id),
                *code as int,
                message@,
            ),
            McpBody::Success { id, result } => BodySpec::Success(json_of(*id), result@),
        }
    }
}

impl View for McpResponse {
    type V = ResponseSpec;

    open spec fn view(&self) -> ResponseSpec {
        ResponseSpec {
            status: self.status,
            headers: header_specs(self.headers@),
            session_id: match self.session_id {
                Some(s) => Some(s@),
                None => None,
            },
            body: self.body@,
        }
    }
}

impl View for McpStep {
    type V = StepSpec;

    open spec fn view(&self) -> StepSpec {
        match self {
            McpStep::Respond(r) => StepSpec::Respond(r@),
            McpStep::CallTool { id, session_id, name, args } => StepSpec::CallTool(
                json_of(*id),
                session_id@,
                name@,
                json_of(*args),
            ),
        }
    }
}

/// JSON-RPC code of a body that is not JSON.
pub const PARSE_ERROR: i64 = -32700;

/// JSON-RPC code of an unknown method.
pub const METHOD_NOT_FOUND: i64 = -32601;

/// The method a request names (`""` when it names none).
pub open spec fn spec_method(req: JsonSpec) -> Seq<char> {
    req.at("method"@).str_or(""@)
}

/// Notifications get no JSON-RPC answer.
pub open spec fn is_notification(method: Seq<char>) -> bool {
    starts_with(method, "notifications/"@)
}

/// The texts of a list of headers.
pub open spec fn header_specs(h: Seq<(&'static str, &'static str)>) -> Seq<(Seq<char>, Seq<char>)> {
    h.map_values(|p: (&'static str, &'static str)| (p.0@, p.1@))
}

/// The headers of every answer with a JSON body.
pub open spec fn json_headers() -> Seq<(Seq<char>, Seq<char>)> {
    seq![
        ("Content-Type"@, "application/json"@),
        ("MCP-Protocol-Version"@, "2025-03-26"@),
        ("Access-Control-Allow-Origin"@, "*"@),
    ]
}

/// The headers of an accepted notification.
pub open spec fn accepted_headers() -> Seq<(Seq<char>, Seq<char>)> {
    seq![("MCP-Protocol-Version"@, "2025-03-26"@)]
}

/// The answer to a notification: accepted, with no body and no session.
pub open spec fn accepted_answer() -> ResponseSpec {
    ResponseSpec {
        status: 202,
        headers: accepted_headers(),
        session_id: None,
        body: BodySpec::NoBody,
    }
}

/// How the server introduces itself under protocol version `protocol_version`.
pub open spec fn initialize_result(protocol_version: Seq<char>) -> ResultSpec {
    ResultSpec::Initialize(
        InitializeSpec {
            protocol_version,
            server_name: "roblox-studio-mcp"@,
            server_version: "0.2.0"@,
            tools_list_changed: false,
            instructions: "QUAN TRỌNG: 1. Gọi snapshot() ĐẦU TIÊN để lấy toàn bộ context game. 2. Dùng batch_run([...]) thay vì nhiều run_code() riêng lẻ. 3. Gộp nhiều thay đổi vào 1 đoạn code khi có thể."@,
        },
    )
}

/// A `200 OK` answer carrying `result` for request `id`.
pub open spec fn ok_answer(id: JsonSpec, session: Seq<char>, result: ResultSpec) -> StepSpec {
    StepSpec::Respond(
        ResponseSpec {
            status: 200,
            headers: json_headers(),
            session_id: Some(session),
            body: BodySpec::Success(id, result),
        },
    )
}

/// What the endpoint does with request `req` in session `session`.
pub open spec fn spec_route(req: JsonSpec, session: Seq<char>) -> StepSpec {
    let method = spec_method(req);
    let id = req.at("id"@);
    let params = req.at("params"@);
    if is_notification(method) {
        StepSpec::Respond(accepted_answer())
    } else if method == "initialize"@ {
        ok_answer(
            id,
            session,
            initialize_result(
                spec_negotiate_protocol(params.at("protocolVersion"@).str_or("2025-03-26"@)),
            ),
        )
    } else if method == "tools/list"@ {
        ok_answer(id, session, ResultSpec::ToolsList)
    } else if method == "tools/call"@ {
        StepSpec::CallTool(id, session, params.at("name"@).str_or(""@), params.at("arguments"@))
    } else if method == "ping"@ {
        ok_answer(id, session, ResultSpec::Empty)
    } else {
        StepSpec::Respond(
            ResponseSpec {
                status: 200,
                headers: json_headers(),
                session_id: Some(session),
                body: BodySpec::Error(id, METHOD_NOT_FOUND as int, "Method not found: "@ + method),
            },
        )
    }
}

/// The answer to a body that is not JSON; `message` is the parser's error text.
pub open spec fn spec_parse_error(message: Seq<char>) -> StepSpec {
    StepSpec::Respond(
        ResponseSpec {
            status: 400,
            headers: json_headers(),
            session_id: None,
            body: BodySpec::Error(JsonSpec::Null, PARSE_ERROR as int, "Parse error: "@ + message),
        },
    )
}

/// An answer with a JSON body.
fn json_answer(status: u16, session_id: Option<String>, body: McpBody) -> (r: McpResponse)
    ensures
        r.status == status,
        header_specs(r.headers@) == json_headers(),
        r.session_id == session_id,
        r.body == body,
{
    let mut headers: Vec<(&'static str, &'static str)> = Vec::new();
    headers.push(("Content-Type", "application/json"));
    headers.push(("MCP-Protocol-Version", "2025-03-26"));
    headers.push(("Access-Control-Allow-Origin", "*"));
    assert(header_specs(headers@) =~= json_headers());
    McpResponse { status, headers, session_id, body }
}

/// The answer to a notification.
fn accepted_response() -> (r: McpResponse)
    ensures
        r@ == accepted_answer(),
{
    let mut headers: Vec<(&'static str, &'static str)> = Vec::new();
    headers.push(("MCP-Protocol-Version", "2025-03-26"));
    assert(header_specs(headers@) =~= accepted_headers());
    McpResponse { status: 202, headers, session_id: None, body: McpBody::NoBody }
}

/// How the server introduces itself under `protocol_version`.
pub fn initialize_answer(protocol_version: &'static str) -> (r: McpResult)
    ensures
        r@ == initialize_result(protocol_version@),
{
    McpResult::Initialize {
        protocol_version,
        server_name: "roblox-studio-mcp",
        server_version: "0.2.0",
        tools_list_changed: false,
        instructions: "QUAN TRỌNG: 1. Gọi snapshot() ĐẦU TIÊN để lấy toàn bộ context game. 2. Dùng batch_run([...]) thay vì nhiều run_code() riêng lẻ. 3. Gộp nhiều thay đổi vào 1 đoạn code khi có thể.",
    }
}

/// `v[key].clone()`: the member, or `null`.
fn member_or_null(v: Option<&serde_json::Value>, key: &str) -> (r: serde_json::Value)
    ensures
        json_of(r) == (match v {
            Some(x) => json_of(*x),
            None => JsonSpec::Null,
        }).at(key@),
{
    match v {
        None => json_null(),
        Some(x) => match json_index(x, key) {
            Some(m) => json_clone(m),
            None => json_null(),
        },
    }
}

/// Routes a parsed request in session `session_id`.
pub fn route_request(req: &serde_json::Value, session_id: String) -> (r: McpStep)
    ensures
        r@ == spec_route(json_of(*req), session_id@),
{
    let method = str_at(Some(req), "method", "");
    if starts_with_chars(to_chars(method.as_str()).as_slice(), to_chars("notifications/").as_slice()) {
        return McpStep::Respond(accepted_response());
    }
    let id = member_or_null(Some(req), "id");
    let params = json_index(req, "params");
    if str_eq(method.as_str(), "initialize") {
        let wanted = str_at(params, "protocolVersion", "2025-03-26");
        let result = initialize_answer(negotiate_protocol(wanted.as_str()));
        McpStep::Respond(json_answer(200, Some(session_id), McpBody::Success { id, result }))
    } else if str_eq(method.as_str(), "tools/list") {
        McpStep::Respond(
            json_answer(200, Some(session_id), McpBody::Success { id, result: McpResult::ToolsList }),
        )
    } else if str_eq(method.as_str(), "tools/call") {
        let name = str_at(params, "name", "");
        let args = member_or_null(params, "arguments");
        McpStep::CallTool { id, session_id, name, args }
    } else if str_eq(method.as_str(), "ping") {
        McpStep::Respond(
            json_answer(200, Some(session_id), McpBody::Success { id, result: McpResult::Empty }),
        )
    } else {
        let message = String::from_str("Method not found: ").concat(method.as_str());
        McpStep::Respond(
            json_answer(
                200,
                Some(session_id),
                McpBody::Error { id, code: METHOD_NOT_FOUND, message },
            ),
        )
    }
}

/// The answer to a body that is not JSON.
pub fn parse_error_response(message: String) -> (r: McpStep)
    ensures
        r@ == spec_parse_error(message@),
{
    let message = String::from_str("Parse error: ").concat(message.as_str());
    McpStep::Respond(
        json_answer(400, None, McpBody::Error { id: json_null(), code: PARSE_ERROR, message }),
    )
}

/// The text form of a random (version 4) UUID: lower-case hex digits in groups of
/// 8-4-4-4-12, version digit `4`, variant digit one of `8`, `9`, `a`, `b`.
pub open spec fn is_uuid_v4_text(s: Seq<char>) -> bool {
    &&& s.len() == 36
    &&& forall|i: int|
        0 <= i < 36 ==> if i == 8 || i == 13 || i == 18 || i == 23 {
            s[i] == '-'
        } else {
            ('0' <= #[trigger] s[i] <= '9') || ('a' <= s[i] <= 'f')
        }
    &&& s[14] == '4'
    &&& (s[19] == '8' || s[19] == '9' || s[19] == 'a' || s[19] == 'b')
}

/// `Uuid::new_v4().to_string()`: a fresh random UUID in its hyphenated lower-case form.
/// Which UUID comes out is left open: it is random.
#[verifier::external_body]
pub fn new_uuid() -> (r: String)
    ensures
        is_uuid_v4_text(r@),
{
    uuid::Uuid::new_v4().to_string()
}

/// The session a request belongs to: the one its header names, or a fresh one.
pub fn session_id_for(header: Option<String>) -> (r: String)
    ensures
        header matches Some(h) ==> r@ == h@,
        header is None ==> is_uuid_v4_text(r@),
{
    match header {
        Some(h) => h,
        None => new_uuid(),
    }
}

/// Handles the body of a POST to the endpoint: a body that is not JSON gets a
/// parse error, a notification is accepted without an answer, anything else is
/// routed in the session its header names (or a fresh one).
pub fn handle_post(body: &[u8], session_header: Option<String>) -> (r: McpStep)
    ensures
        parsed_json(body@) matches Err(m) ==> r@ == spec_parse_error(m),
        parsed_json(body@) matches Ok(req) ==> exists|sid: Seq<char>|
            {
                &&& r@ == #[trigger] spec_route(req, sid)
                &&& session_header matches Some(h) ==> sid == h@
                &&& (session_header is None && !is_notification(spec_method(req)))
                    ==> is_uuid_v4_text(sid)
            },
{
    let req = match parse_json(body) {
        Err(message) => return parse_error_response(message),
        Ok(v) => v,
    };
    let method = str_at(Some(&req), "method", "");
    if starts_with_chars(to_chars(method.as_str()).as_slice(), to_chars("notifications/").as_slice()) {
        let r = McpStep::Respond(accepted_response());
        let ghost sid = match session_header {
            Some(h) => h@,
            None => Seq::empty(),
        };
        assert(r@ == spec_route(json_of(req), sid));
        return r;
    }
    let session_id = session_id_for(session_header);
    route_request(&req, session_id)
}

/// The answer to a tool call once the tool has produced `text`.
pub fn tool_call_response(id: serde_json::Value, session_id: String, text: String) -> (r:
    McpResponse)
    ensures
        r@ == (ResponseSpec {
            status: 200,
            headers: json_headers(),
            session_id: Some(session_id@),
            body: BodySpec::Success(json_of(id), ResultSpec::ToolText(text@)),
        }),
{
    json_answer(200, Some(session_id), McpBody::Success { id, result: McpResult::ToolText { text } })
}

// ── Laws ─────────────────────────────────────────────────────────

/// The negotiated version is always one this server speaks, and a client that
/// speaks the newest one gets it.
pub proof fn law_negotiated_version_is_supported(client: Seq<char>)
    ensures
        spec_negotiate_protocol(client) == "2025-03-26"@ || spec_negotiate_protocol(client)
            == "2024-11-05"@,
        !lex_less(client, "2025-03-26"@) ==> spec_negotiate_protocol(client) == "2025-03-26"@,
{
}

/// The choice of version is monotone: a client that speaks a later version never
/// gets an earlier one, and a client that speaks at least the oldest supported
/// version never gets one newer than its own.
pub proof fn law_negotiation_is_monotone(a: Seq<char>, b: Seq<char>)
    ensures
        !lex_less(b, a) ==> !lex_less(spec_negotiate_protocol(b), spec_negotiate_protocol(a)),
        !lex_less(a, "2024-11-05"@) ==> !lex_less(a, spec_negotiate_protocol(a)),
{
    let newest = "2025-03-26"@;
    let oldest = "2024-11-05"@;
    reveal_strlit("2025-03-26");
    reveal_strlit("2024-11-05");
    lemma_lex_irreflexive(newest, 0);
    lemma_lex_irreflexive(oldest, 0);
    assert(!lex_less(newest, oldest)) by {
        assert(newest[3] != oldest[3]);
        assert(lex_less_from(newest, oldest, 3) == false);
        assert(lex_less_from(newest, oldest, 2) == lex_less_from(newest, oldest, 3));
        assert(lex_less_from(newest, oldest, 1) == lex_less_from(newest, oldest, 2));
        assert(lex_less_from(newest, oldest, 0) == lex_less_from(newest, oldest, 1));
    }
    if !lex_less(b, a) && !lex_less(a, newest) {
        lemma_lex_not_less(a, b);
        if lex_less(b, newest) && lex_less(a, b) {
            lemma_lex_transitive(a, b, newest, 0);
        }
    }
}

/// The tools that `tools/list` announces are exactly the tools a call can run.
pub proof fn law_listed_tools_are_callable(name: Seq<char>, args: JsonSpec)
    ensures
        tool_names().contains(name) <==> spec_dispatch(true, name, args) is Send,
{
    reveal_strlit("snapshot");
    reveal_strlit("batch_run");
    reveal_strlit("run_code");
    reveal_strlit("get_instances");
    reveal_strlit("get_scripts");
    reveal_strlit("insert_part");
    reveal_strlit("insert_script");
    reveal_strlit("status");
    let names = tool_names();
    assert(names =~= seq![
        "snapshot"@,
        "batch_run"@,
        "run_code"@,
        "get_instances"@,
        "get_scripts"@,
        "insert_part"@,
        "insert_script"@,
        "status"@,
    ]);
    if spec_dispatch(true, name, args) is Send {
        if name == "snapshot"@ {
            assert(names[0] == name);
        } else if name == "get_scripts"@ {
            assert(names[4] == name);
        } else if name == "status"@ {
            assert(names[7] == name);
        } else if name == "run_code"@ {
            assert(names[2] == name);
        } else if name == "get_instances"@ {
            assert(names[3] == name);
        } else if name == "insert_part"@ {
            assert(names[5] == name);
        } else if name == "insert_script"@ {
            assert(names[6] == name);
        } else {
            assert(names[1] == name);
        }
    }
}

/// Every notification is accepted, whatever follows `notifications/` in its
/// method: `202 Accepted`, only the protocol-version header, no session and no body.
pub proof fn law_every_notification_accepted(req: JsonSpec, x: Seq<char>, session: Seq<char>)
    requires
        req.at("method"@) == JsonSpec::String("notifications/"@ + x),
    ensures
        spec_route(req, session) == StepSpec::Respond(
            ResponseSpec {
                status: 202,
                headers: seq![("MCP-Protocol-Version"@, "2025-03-26"@)],
                session_id: None,
                body: BodySpec::NoBody,
            },
        ),
{
    let m = "notifications/"@ + x;
    assert(m.subrange(0, "notifications/"@.len() as int) =~= "notifications/"@);
    assert(is_notification(m));
}

/// The string arguments of a call reach the plugin as they were given:
/// `get_instances` looks at `path`, `run_code` runs `code`, `insert_part` creates
/// `name` under `parent`, `insert_script` writes its `script_type`, `name` and
/// `source` as Luau string literals and its `parent` as a path, and `batch_run`
/// runs the strings of `codes` in order.
pub proof fn law_tool_arguments_reach_the_plugin(
    args: JsonSpec,
    a: Seq<char>,
    b: Seq<char>,
    c: Seq<char>,
    d: Seq<char>,
    items: Seq<JsonSpec>,
)
    ensures
        args.at("path"@) == JsonSpec::String(a) ==> spec_dispatch(true, "get_instances"@, args)
            == DispatchSpec::Send(CommandSpec::GetInstances(a)),
        args.at("code"@) == JsonSpec::String(a) ==> spec_dispatch(true, "run_code"@, args)
            == DispatchSpec::Send(CommandSpec::RunCode(a)),
        args.at("name"@) == JsonSpec::String(a) && args.at("parent"@) == JsonSpec::String(b)
            ==> spec_dispatch(true, "insert_part"@, args) == DispatchSpec::Send(
            CommandSpec::InsertPart(a, b),
        ),
        args.at("script_type"@) == JsonSpec::String(a) && args.at("name"@) == JsonSpec::String(b)
            && args.at("source"@) == JsonSpec::String(c) && args.at("parent"@) == JsonSpec::String(
            d,
        ) ==> spec_dispatch(true, "insert_script"@, args) == DispatchSpec::Send(
            CommandSpec::RunCode(
                "local s = Instance.new("@ + json_quoted(a) + ")\ns.Name   = "@ + json_quoted(b)
                    + "\ns.Source = "@ + json_quoted(c) + "\ns.Parent = "@ + d
                    + "\nprint(\"✅ \" .. s.Name)"@,
            ),
        ),
        args.at("codes"@) == JsonSpec::Array(items) && (forall|i: int|
            0 <= i < items.len() ==> #[trigger] items[i] is String) ==> (spec_dispatch(
            true,
            "batch_run"@,
            args,
        ) matches DispatchSpec::Send(CommandSpec::BatchRun(cs)) && cs.len() == items.len() && (
        forall|i: int| 0 <= i < items.len() ==> items[i] == JsonSpec::String(#[trigger] cs[i]))),
{
    lemma_tool_and_key_texts();
    if args.at("codes"@) == JsonSpec::Array(items) && (forall|i: int|
        0 <= i < items.len() ==> #[trigger] items[i] is String) {
        lemma_string_items_of_strings(items);
    }
}

/// A call that leaves out a string argument (or gives something other than a
/// string) gets its default: `get_instances` looks at `game`, `run_code` runs
/// nothing, `insert_part` creates `Part` under `game.Workspace`, `insert_script`
/// creates a `Script` named `Script` with no source under
/// `game.ServerScriptService`, and `batch_run` without a list runs nothing.
pub proof fn law_tool_argument_defaults(args: JsonSpec)
    ensures
        !(args.at("path"@) is String) ==> spec_dispatch(true, "get_instances"@, args)
            == DispatchSpec::Send(CommandSpec::GetInstances("game"@)),
        !(args.at("code"@) is String) ==> spec_dispatch(true, "run_code"@, args)
            == DispatchSpec::Send(CommandSpec::RunCode(""@)),
        !(args.at("name"@) is String) && !(args.at("parent"@) is String) ==> spec_dispatch(
            true,
            "insert_part"@,
            args,
        ) == DispatchSpec::Send(CommandSpec::InsertPart("Part"@, "game.Workspace"@)),
        !(args.at("script_type"@) is String) && !(args.at("name"@) is String) && !(args.at(
            "source"@,
        ) is String) && !(args.at("parent"@) is String) ==> spec_dispatch(
            true,
            "insert_script"@,
            args,
        ) == DispatchSpec::Send(
            CommandSpec::RunCode(
                "local s = Instance.new("@ + json_quoted("Script"@) + ")\ns.Name   = "@
                    + json_quoted("Script"@) + "\ns.Source = "@ + json_quoted(""@)
                    + "\ns.Parent = "@ + "game.ServerScriptService"@
                    + "\nprint(\"✅ \" .. s.Name)"@,
            ),
        ),
        !(args.at("codes"@) is Array) ==> spec_dispatch(true, "batch_run"@, args)
            == DispatchSpec::Send(CommandSpec::BatchRun(Seq::empty())),
{
    lemma_tool_and_key_texts();
}

proof fn lemma_string_items_of_strings(items: Seq<JsonSpec>)
    requires
        forall|i: int| 0 <= i < items.len() ==> #[trigger] items[i] is String,
    ensures
        string_items(items).len() == items.len(),
        forall|i: int| 0 <= i < items.len() ==> items[i] == JsonSpec::String(
            #[trigger] string_items(items)[i],
        ),
    decreases items.len(),
{
    if items.len() > 0 {
        let d = items.drop_last();
        assert forall|i: int| 0 <= i < d.len() implies #[trigger] d[i] is String by {
            assert(d[i] == items[i]);
        }
        lemma_string_items_of_strings(d);
        assert(items.last() == items[items.len() - 1]);
        assert forall|i: int| 0 <= i < items.len() implies items[i] == JsonSpec::String(
            #[trigger] string_items(items)[i],
        ) by {
            if i < items.len() - 1 {
                assert(items[i] == d[i]);
            }
        }
    }
}

/// The tool names and argument keys are told apart by their length and first character.
proof fn lemma_tool_and_key_texts()
    ensures
        "snapshot"@.len() == 8 && "snapshot"@[0] == 's',
        "batch_run"@.len() == 9 && "batch_run"@[0] == 'b',
        "run_code"@.len() == 8 && "run_code"@[0] == 'r',
        "get_instances"@.len() == 13 && "get_instances"@[0] == 'g',
        "get_scripts"@.len() == 11 && "get_scripts"@[0] == 'g',
        "insert_part"@.len() == 11 && "insert_part"@[0] == 'i',
        "insert_script"@.len() == 13 && "insert_script"@[0] == 'i',
        "status"@.len() == 6 && "status"@[0] == 's',
        "codes"@.len() == 5 && "codes"@[0] == 'c',
        "code"@.len() == 4 && "code"@[0] == 'c',
        "path"@.len() == 4 && "path"@[0] == 'p',
        "name"@.len() == 4 && "name"@[0] == 'n',
        "parent"@.len() == 6 && "parent"@[0] == 'p',
        "script_type"@.len() == 11 && "script_type"@[0] == 's',
        "source"@.len() == 6 && "source"@[0] == 's',
{
    reveal_strlit("snapshot");
    reveal_strlit("batch_run");
    reveal_strlit("run_code");
    reveal_strlit("get_instances");
    reveal_strlit("get_scripts");
    reveal_strlit("insert_part");
    reveal_strlit("insert_script");
    reveal_strlit("status");
    reveal_strlit("codes");
    reveal_strlit("code");
    reveal_strlit("path");
    reveal_strlit("name");
    reveal_strlit("parent");
    reveal_strlit("script_type");
    reveal_strlit("source");
}

/// Writing one more plain character makes a JSON string literal one longer.
proof fn lemma_json_quoted_grows(s: Seq<char>)
    ensures
        json_quoted(s.push('x')).len() == json_quoted(s).len() + 1,
{
    assert(s.push('x').drop_last() =~= s);
    assert(json_escape('x') =~= seq!['x']);
}

/// An object with one member, `key`, holding `v`.
pub open spec fn one_member(key: Seq<char>, v: JsonSpec) -> JsonSpec {
    JsonSpec::Object(seq![(key, v)])
}

/// The catalogue announces each parameter under the name and in the shape that the
/// call reads: under a list parameter a single string is ignored (as if the member
/// were missing) while a list of strings reaches the plugin; under a string
/// parameter a list is ignored while the string given reaches the plugin.
pub proof fn law_listed_parameter_shapes(i: int, j: int, s: Seq<char>, xs: Seq<JsonSpec>)
    requires
        0 <= i < spec_tools().len(),
        0 <= j < spec_tools()[i].params.len(),
    ensures
        ({
            let name = spec_tools()[i].name;
            let key = spec_tools()[i].params[j].name;
            &&& spec_tools()[i].params[j].is_list ==> {
                &&& spec_dispatch(true, name, one_member(key, JsonSpec::String(s)))
                    == spec_dispatch(true, name, one_member(key, JsonSpec::Null))
                &&& spec_dispatch(
                    true,
                    name,
                    one_member(key, JsonSpec::Array(seq![JsonSpec::String(s)])),
                ) != spec_dispatch(true, name, one_member(key, JsonSpec::Null))
            }
            &&& !spec_tools()[i].params[j].is_list ==> {
                &&& spec_dispatch(true, name, one_member(key, JsonSpec::Array(xs)))
                    == spec_dispatch(true, name, one_member(key, JsonSpec::Null))
                &&& spec_dispatch(true, name, one_member(key, JsonSpec::String(s.push('x'))))
                    != spec_dispatch(true, name, one_member(key, JsonSpec::String(s)))
            }
        }),
{
    lemma_tool_and_key_texts();
    let name = spec_tools()[i].name;
    let key = spec_tools()[i].params[j].name;
    assert forall|v: JsonSpec, k: Seq<char>| #[trigger] one_member(key, v).at(k) == (if k == key {
        v
    } else {
        JsonSpec::Null
    }) by {
        let e = seq![(key, v)];
        assert(e[0] == (key, v));
        if k != key {
            assert(e.drop_first() =~= Seq::<(Seq<char>, JsonSpec)>::empty());
            assert(obj_lookup(e.drop_first(), k) is None);
        }
    }
    lemma_json_quoted_grows(s);
    let one = seq![JsonSpec::String(s)];
    assert(one.drop_last() =~= Seq::<JsonSpec>::empty());
    assert(string_items(Seq::<JsonSpec>::empty()) =~= Seq::<Seq<char>>::empty());
    assert(one.last() == JsonSpec::String(s));
    assert(string_items(one) =~= seq![s]);
    let sx = s.push('x');
    assert(sx.len() == s.len() + 1);
    assert(sx != s);
    if i == 6 {
        let d1 = spec_dispatch(true, name, one_member(key, JsonSpec::String(sx)));
        let d0 = spec_dispatch(true, name, one_member(key, JsonSpec::String(s)));
        assert(name == "insert_script"@);
        if j == 0 {
            assert(key == "name"@);
        } else if j == 1 {
            assert(key == "script_type"@);
        } else if j == 2 {
            assert(key == "parent"@);
        } else {
            assert(key == "source"@);
        }
        assert(d1 matches DispatchSpec::Send(CommandSpec::RunCode(c1)) && d0 matches DispatchSpec::Send(
            CommandSpec::RunCode(c0),
        ) && c1.len() == c0.len() + 1);
    }
}

/// While the plugin is offline only `status` reaches it; every other call is
/// answered at once.
pub proof fn law_offline_calls_answered_at_once(name: Seq<char>, args: JsonSpec)
    ensures
        name != "status"@ ==> spec_dispatch(false, name, args) == DispatchSpec::Reply(
            offline_message(),
        ),
        name == "status"@ ==> spec_dispatch(false, name, args) == spec_dispatch(true, name, args),
{
}

/// A notification is accepted without a JSON-RPC answer or session; every other
/// request is answered, or run, in its session and under its own id.
pub proof fn law_requests_answered_in_session(req: JsonSpec, session: Seq<char>)
    ensures
        is_notification(spec_method(req)) ==> spec_route(req, session) == StepSpec::Respond(
            accepted_answer(),
        ),
        !is_notification(spec_method(req)) ==> match spec_route(req, session) {
            StepSpec::Respond(r) => {
                &&& r.status == 200
                &&& r.headers == json_headers()
                &&& r.session_id == Some(session)
                &&& match r.body {
                    BodySpec::Success(id, _) => id == req.at("id"@),
                    BodySpec::Error(id, _, _) => id == req.at("id"@),
                    BodySpec::NoBody => false,
                }
            },
            StepSpec::CallTool(id, s, _, _) => id == req.at("id"@) && s == session,
        },
{
}

} // verus!
