//! The tools this server offers to MCP clients, and their parameters.

use vstd::prelude::*;

verus! {

/// Parameters of the `run_code` tool.
#[derive(Debug)]
pub struct RunCodeParams {
    /// Luau code to run in Studio.
    pub code: String,
}

/// Parameters of the `get_instances` tool.
#[derive(Debug)]
pub struct GetInstancesParams {
    /// A path in the DataModel, such as `game.Workspace`.
    pub path: String,
}

/// Parameters of the `insert_part` tool.
#[derive(Debug)]
pub struct InsertPartParams {
    pub name: String,
    /// Path of the parent, such as `game.Workspace`.
    pub parent: String,
}

/// Parameters of the `insert_script` tool.
#[derive(Debug)]
pub struct InsertScriptParams {
    pub name: String,
    /// `Script`, `LocalScript` or `ModuleScript`.
    pub script_type: String,
    pub parent: String,
    pub source: String,
}

/// Parameters of the `batch_run` tool.
#[derive(Debug)]
pub struct BatchRunParams {
    /// Luau snippets, run in order.
    pub codes: Vec<String>,
}

/// The answer of the `snapshot` tool: the plugin's output, or the error as a small
/// JSON object (the message is inserted as it is).
pub fn snapshot_reply(reply: Result<String, String>) -> (r: String)
    ensures
        r@ == (match reply {
            Ok(o) => o@,
            Err(e) => "{\"error\":\""@ + e@ + "\"}"@,
        }),
{
    match reply {
        Ok(o) => o,
        Err(e) => String::from_str("{\"error\":\"").concat(e.as_str()).concat("\"}"),
    }
}

/// The answer of the `status` tool: connected with the plugin's output, or not
/// connected with the reason.
pub fn status_reply(reply: Result<String, String>) -> (r: String)
    ensures
        r@ == (match reply {
            Ok(o) => "🟢 Connected\n"@ + o@,
            Err(e) => "🔴 Not connected: "@ + e@,
        }),
{
    match reply {
        Ok(o) => String::from_str("🟢 Connected\n").concat(o.as_str()),
        Err(e) => String::from_str("🔴 Not connected: ").concat(e.as_str()),
    }
}

impl InsertScriptParams {
    /// The Luau program that creates the script, with the source inside a level-one
    /// long bracket and the other values inside double quotes, all inserted as they are.
    pub fn long_bracket_code(&self) -> (r: String)
        ensures
            r@ == "local s=Instance.new(\""@ + self.script_type@ + "\")\ns.Name=\""@ + self.name@
                + "\"\ns.Source=[=["@ + self.source@ + "]=]\ns.Parent="@ + self.parent@
                + "\nprint(\"✅ \"..s.Name)"@,
    {
        String::from_str("local s=Instance.new(\"").concat(self.script_type.as_str()).concat(
            "\")\ns.Name=\"",
        ).concat(self.name.as_str()).concat("\"\ns.Source=[=[").concat(self.source.as_str()).concat(
            "]=]\ns.Parent=",
        ).concat(self.parent.as_str()).concat("\nprint(\"✅ \"..s.Name)")
    }
}

/// One parameter in a tool's input schema.
pub struct ToolParam {
    pub name: &'static str,
    pub description: &'static str,
    /// An array of strings rather than one string.
    pub is_list: bool,
    /// The values allowed (any, when empty).
    pub choices: Vec<&'static str>,
}

/// One tool in the catalogue: name, description, parameters and required ones.
pub struct ToolSpec {
    pub name: &'static str,
    pub description: &'static str,
    pub params: Vec<ToolParam>,
    pub required: Vec<&'static str>,
}

pub struct ParamView {
    pub name: Seq<char>,
    pub description: Seq<char>,
    pub is_list: bool,
    pub choices: Seq<Seq<char>>,
}

pub struct ToolView {
    pub name: Seq<char>,
    pub description: Seq<char>,
    pub params: Seq<ParamView>,
    pub required: Seq<Seq<char>>,
}

pub open spec fn strs(v: Seq<&'static str>) -> Seq<Seq<char>> {
    v.map_values(|s: &'static str| s@)
}

impl View for ToolParam {
    type V = ParamView;

    open spec fn view(&self) -> ParamView {
        ParamView {
            name: self.name@,
            description: self.description@,
            is_list: self.is_list,
            choices: strs(self.choices@),
        }
    }
}

impl View for ToolSpec {
    type V = ToolView;

    open spec fn view(&self) -> ToolView {
        ToolView {
            name: self.name@,
            description: self.description@,
            params: self.params@.map_values(|p: ToolParam| p@),
            required: strs(self.required@),
        }
    }
}

/// A plain string parameter.
pub open spec fn text_param(name: Seq<char>, description: Seq<char>) -> ParamView {
    ParamView { name, description, is_list: false, choices: Seq::empty() }
}

/// The tool catalogue answered to `tools/list`.
pub open spec fn spec_tools() -> Seq<ToolView> {
    seq![
        ToolView {
            name: "snapshot"@,
            description: "Lấy toàn bộ context game 1 lần: instances, scripts kèm source, version. GỌI ĐẦU TIÊN trước mọi thao tác."@,
            params: Seq::empty(),
            required: Seq::empty(),
        },
        ToolView {
            name: "batch_run"@,
            description: "Chạy nhiều đoạn Luau tuần tự trong 1 lần gọi. Tiết kiệm token hơn nhiều lần run_code."@,
            params: seq![
                ParamView {
                    name: "codes"@,
                    description: "Danh sách đoạn Luau chạy theo thứ tự"@,
                    is_list: true,
                    choices: Seq::empty(),
                },
            ],
            required: seq!["codes"@],
        },
        ToolView {
            name: "run_code"@,
            description: "Chạy 1 đoạn Luau và trả output. Dùng batch_run khi cần nhiều thao tác."@,
            params: seq![text_param("code"@, "Luau code cần chạy"@)],
            required: seq!["code"@],
        },
        ToolView {
            name: "get_instances"@,
            description: "Xem children của 1 path cụ thể. Dùng snapshot() nếu cần tổng quan toàn game."@,
            params: seq![text_param("path"@, "Ví dụ: game.Workspace"@)],
            required: seq!["path"@],
        },
        ToolView {
            name: "get_scripts"@,
            description: "Đọc tất cả scripts kèm toàn bộ source code. Dùng để review hoặc debug code."@,
            params: Seq::empty(),
            required: Seq::empty(),
        },
        ToolView {
            name: "insert_part"@,
            description: "Tạo Part mới trong game."@,
            params: seq![
                text_param("name"@, "Tên Part"@),
                text_param("parent"@, "Path parent, ví dụ: game.Workspace"@),
            ],
            required: seq!["name"@, "parent"@],
        },
        ToolView {
            name: "insert_script"@,
            description: "Tạo Script/LocalScript/ModuleScript với source code."@,
            params: seq![
                text_param("name"@, "Tên script"@),
                ParamView {
                    name: "script_type"@,
                    description: "Loại script"@,
                    is_list: false,
                    choices: seq!["Script"@, "LocalScript"@, "ModuleScript"@],
                },
                text_param("parent"@, "Path parent"@),
                text_param("source"@, "Source code Luau"@),
            ],
            required: seq!["name"@, "script_type"@, "parent"@, "source"@],
        },
        ToolView {
            name: "status"@,
            description: "Kiểm tra kết nối với Roblox Studio plugin và lấy version."@,
            params: Seq::empty(),
            required: Seq::empty(),
        },
    ]
}

/// The names of the tools in the catalogue, in order.
pub open spec fn tool_names() -> Seq<Seq<char>> {
    spec_tools().map_values(|t: ToolView| t.name)
}

fn text(name: &'static str, description: &'static str) -> (r: ToolParam)
    ensures
        r@ == text_param(name@, description@),
{
    let r = ToolParam { name, description, is_list: false, choices: Vec::new() };
    assert(strs(r.choices@) =~= Seq::<Seq<char>>::empty());
    r
}

fn tool(
    name: &'static str,
    description: &'static str,
    params: Vec<ToolParam>,
    required: Vec<&'static str>,
) -> (r: ToolSpec)
    ensures
        r@ == (ToolView {
            name: name@,
            description: description@,
            params: params@.map_values(|p: ToolParam| p@),
            required: strs(required@),
        }),
{
    ToolSpec { name, description, params, required }
}

fn no_params() -> (r: (Vec<ToolParam>, Vec<&'static str>))
    ensures
        r.0@.map_values(|p: ToolParam| p@) == Seq::<ParamView>::empty(),
        strs(r.1@) == Seq::<Seq<char>>::empty(),
{
    let r = (Vec::new(), Vec::new());
    assert(r.0@.map_values(|p: ToolParam| p@) =~= Seq::<ParamView>::empty());
    assert(strs(r.1@) =~= Seq::<Seq<char>>::empty());
    r
}

fn snapshot_tool() -> (r: ToolSpec)
    ensures
        r@ == spec_tools()[0],
{
    let (p, req) = no_params();
    tool(
        "snapshot",
        "Lấy toàn bộ context game 1 lần: instances, scripts kèm source, version. GỌI ĐẦU TIÊN trước mọi thao tác.",
        p,
        req,
    )
}

fn batch_run_tool() -> (r: ToolSpec)
    ensures
        r@ == spec_tools()[1],
{
    let mut p: Vec<ToolParam> = Vec::new();
    p.push(
        ToolParam {
            name: "codes",
            description: "Danh sách đoạn Luau chạy theo thứ tự",
            is_list: true,
            choices: Vec::new(),
        },
    );
    let mut req: Vec<&'static str> = Vec::new();
    req.push("codes");
    let ghost want = spec_tools()[1];
    assert(strs(p@[0].choices@) =~= Seq::<Seq<char>>::empty());
    assert(p@.map_values(|x: ToolParam| x@) =~= want.params);
    assert(strs(req@) =~= want.required);
    tool(
        "batch_run",
        "Chạy nhiều đoạn Luau tuần tự trong 1 lần gọi. Tiết kiệm token hơn nhiều lần run_code.",
        p,
        req,
    )
}

fn run_code_tool() -> (r: ToolSpec)
    ensures
        r@ == spec_tools()[2],
{
    let mut p: Vec<ToolParam> = Vec::new();
    p.push(text("code", "Luau code cần chạy"));
    let mut req: Vec<&'static str> = Vec::new();
    req.push("code");
    let ghost want = spec_tools()[2];
    assert(p@.map_values(|x: ToolParam| x@) =~= want.params);
    assert(strs(req@) =~= want.required);
    tool(
        "run_code",
        "Chạy 1 đoạn Luau và trả output. Dùng batch_run khi cần nhiều thao tác.",
        p,
        req,
    )
}

fn get_instances_tool() -> (r: ToolSpec)
    ensures
        r@ == spec_tools()[3],
{
    let mut p: Vec<ToolParam> = Vec::new();
    p.push(text("path", "Ví dụ: game.Workspace"));
    let mut req: Vec<&'static str> = Vec::new();
    req.push("path");
    let ghost want = spec_tools()[3];
    assert(p@.map_values(|x: ToolParam| x@) =~= want.params);
    assert(strs(req@) =~= want.required);
    tool(
        "get_instances",
        "Xem children của 1 path cụ thể. Dùng snapshot() nếu cần tổng quan toàn game.",
        p,
        req,
    )
}

fn get_scripts_tool() -> (r: ToolSpec)
    ensures
        r@ == spec_tools()[4],
{
    let (p, req) = no_params();
    tool(
        "get_scripts",
        "Đọc tất cả scripts kèm toàn bộ source code. Dùng để review hoặc debug code.",
        p,
        req,
    )
}

fn insert_part_tool() -> (r: ToolSpec)
    ensures
        r@ == spec_tools()[5],
{
    let mut p: Vec<ToolParam> = Vec::new();
    p.push(text("name", "Tên Part"));
    p.push(text("parent", "Path parent, ví dụ: game.Workspace"));
    let mut req: Vec<&'static str> = Vec::new();
    req.push("name");
    req.push("parent");
    let ghost want = spec_tools()[5];
    assert(p@.map_values(|x: ToolParam| x@) =~= want.params);
    assert(strs(req@) =~= want.required);
    tool("insert_part", "Tạo Part mới trong game.", p, req)
}

fn insert_script_tool() -> (r: ToolSpec)
    ensures
        r@ == spec_tools()[6],
{
    let mut p: Vec<ToolParam> = Vec::new();
    p.push(text("name", "Tên script"));
    let mut choices: Vec<&'static str> = Vec::new();
    choices.push("Script");
    choices.push("LocalScript");
    choices.push("ModuleScript");
    assert(strs(choices@) =~= seq!["Script"@, "LocalScript"@, "ModuleScript"@]);
    p.push(ToolParam { name: "script_type", description: "Loại script", is_list: false, choices });
    p.push(text("parent", "Path parent"));
    p.push(text("source", "Source code Luau"));
    let mut req: Vec<&'static str> = Vec::new();
    req.push("name");
    req.push("script_type");
    req.push("parent");
    req.push("source");
    let ghost want = spec_tools()[6];
    assert(p@.map_values(|x: ToolParam| x@) =~= want.params);
    assert(strs(req@) =~= want.required);
    tool("insert_script", "Tạo Script/LocalScript/ModuleScript với source code.", p, req)
}

fn status_tool() -> (r: ToolSpec)
    ensures
        r@ == spec_tools()[7],
{
    let (p, req) = no_params();
    tool("status", "Kiểm tra kết nối với Roblox Studio plugin và lấy version.", p, req)
}

/// The tool catalogue.
pub fn tools_schema() -> (r: Vec<ToolSpec>)
    ensures
        r@.map_values(|t: ToolSpec| t@) == spec_tools(),
{
    let mut out: Vec<ToolSpec> = Vec::new();
    out.push(snapshot_tool());
    out.push(batch_run_tool());
    out.push(run_code_tool());
    out.push(get_instances_tool());
    out.push(get_scripts_tool());
    out.push(insert_part_tool());
    out.push(insert_script_tool());
    out.push(status_tool());
    assert(out@.map_values(|t: ToolSpec| t@) =~= spec_tools());
    out
}

} // verus!
