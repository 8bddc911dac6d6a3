use vstd::prelude::*;

use crate::adb::{adb_command, device_options, outcome_view, texts};
use crate::codec::{base64_decode, base64_decoding, base64_encoding};
use crate::errors::{failure_message, Failure, ToolError};
use crate::json::{
    items_model, json_bool, json_get, json_u64, members_model, push_item, push_member, same_text,
    str_member, Json, JsonValue,
};
use crate::path::{file_name, file_name_of, join, join_path, PathStyle};
use crate::protocol::{
    error_json, response_id, response_json, speaks_v2, success_json, JsonRpcErrorResponse, JsonRpcRequest, JsonRpcResponse,
    JsonRpcSuccessResponse, INVALID_PARAMS, METHOD_NOT_FOUND,
};
use crate::session::{Coll, Collect, Plan, PlanModel, Prep, Prepare};
use crate::text::{decimal, decimal_text};
use crate::tools::{catalogue, catalogue_tools, tool_json, Tool};

verus! {

// ---------------------------------------------------------------------------
// What each tool does, stated over the model of its arguments.
// ---------------------------------------------------------------------------

/// The device that the arguments name.
pub open spec fn device_of(args: Json) -> Option<Seq<char>> {
    str_member(args, "device"@)
}

/// An `adb` command on the device that the arguments name.
pub open spec fn on_device(args: Json, words: Seq<Seq<char>>) -> Seq<Seq<char>> {
    device_options(device_of(args)) + words
}

/// A plan of one command whose output is the answer.
pub open spec fn single(command: Seq<Seq<char>>) -> PlanModel {
    PlanModel {
        prepare: Prep::Nothing,
        commands: seq![command],
        collect: Coll::Output,
        cleanup: None,
    }
}

/// A boolean argument, `default` when it is absent or not a boolean.
pub open spec fn flag(args: Json, key: Seq<char>, default: bool) -> bool {
    match json_get(args, key) {
        Some(v) => match json_bool(v) {
            Some(b) => b,
            None => default,
        },
        None => default,
    }
}

/// The number of log lines asked for; 50 unless a non-negative integer
/// is given.
pub open spec fn lines_of(args: Json) -> u64 {
    match json_get(args, "lines"@) {
        Some(v) => match json_u64(v) {
            Some(n) => n,
            None => 50,
        },
        None => 50,
    }
}

/// The `-s <filter>` options of `logcat`, when a filter is given.
pub open spec fn filter_options(args: Json) -> Seq<Seq<char>> {
    match str_member(args, "filter"@) {
        Some(f) => seq!["-s"@, f],
        None => Seq::empty(),
    }
}

/// The shell line of a manager command: the manager, the subcommand, and
/// the extra arguments when there are some.
pub open spec fn manager_line(manager: Seq<char>, command: Seq<char>, extra: Option<Seq<char>>) -> Seq<char> {
    let base = manager + " "@ + command;
    match extra {
        Some(a) => base + " "@ + a,
        None => base,
    }
}

pub open spec fn devices_plan() -> PlanModel {
    single(seq!["devices"@, "-l"@])
}

pub open spec fn shell_plan(args: Json) -> Result<PlanModel, Failure> {
    match str_member(args, "command"@) {
        None => Err(Failure::MissingArgument("command"@)),
        Some(c) => Ok(single(on_device(args, seq!["shell"@, c]))),
    }
}

pub open spec fn install_plan(args: Json) -> Result<PlanModel, Failure> {
    match str_member(args, "apk_path"@) {
        None => Err(Failure::MissingArgument("apk_path"@)),
        Some(apk) => Ok(
            PlanModel {
                prepare: Prep::RequireFile(apk),
                commands: seq![on_device(args, seq!["install"@, apk])],
                collect: Coll::Output,
                cleanup: None,
            },
        ),
    }
}

pub open spec fn logcat_plan(args: Json) -> PlanModel {
    single(
        on_device(args, seq!["logcat"@, "-d"@, "-t"@, decimal(lines_of(args) as nat)]
            + filter_options(args)),
    )
}

/// Where a pulled file is put: under the temporary directory, named after
/// the remote file, or `pulled_file` when the remote path has no name.
pub open spec fn pull_target(style: PathStyle, temp: Seq<char>, remote: Seq<char>) -> Seq<char> {
    join(
        style,
        temp,
        match file_name(style, remote) {
            Some(n) => n,
            None => "pulled_file"@,
        },
    )
}

pub open spec fn pull_plan(args: Json, temp: Seq<char>, style: PathStyle) -> Result<PlanModel, Failure> {
    match str_member(args, "remote_path"@) {
        None => Err(Failure::MissingArgument("remote_path"@)),
        Some(remote) => {
            let local = pull_target(style, temp, remote);
            Ok(
                PlanModel {
                    prepare: Prep::Nothing,
                    commands: seq![on_device(args, seq!["pull"@, remote, local])],
                    collect: Coll::Download(local, flag(args, "as_base64"@, true)),
                    cleanup: None,
                },
            )
        },
    }
}

pub open spec fn push_plan(args: Json, temp: Seq<char>, style: PathStyle) -> Result<PlanModel, Failure> {
    match str_member(args, "file_base64"@) {
        None => Err(Failure::MissingArgument("file_base64"@)),
        Some(encoded) => match str_member(args, "remote_path"@) {
            None => Err(Failure::MissingArgument("remote_path"@)),
            Some(remote) => match base64_decoding(encoded) {
                Err(e) => Err(Failure::InvalidBase64(e)),
                Ok(bytes) => {
                    let staged = join(style, temp, "push_temp"@);
                    Ok(
                        PlanModel {
                            prepare: Prep::StageUpload(staged, bytes),
                            commands: seq![on_device(args, seq!["push"@, staged, remote])],
                            collect: Coll::Output,
                            cleanup: Some(staged),
                        },
                    )
                },
            },
        },
    }
}

pub open spec fn manager_plan(args: Json, manager: Seq<char>, command_key: Seq<char>, args_key: Seq<char>) -> Result<PlanModel, Failure> {
    match str_member(args, command_key) {
        None => Err(Failure::MissingArgument(command_key)),
        Some(c) => Ok(
            single(on_device(args, seq!["shell"@, manager_line(manager, c, str_member(args, args_key))])),
        ),
    }
}

pub open spec fn activity_manager_plan(args: Json) -> Result<PlanModel, Failure> {
    manager_plan(args, "am"@, "am_command"@, "am_args"@)
}

pub open spec fn package_manager_plan(args: Json) -> Result<PlanModel, Failure> {
    manager_plan(args, "pm"@, "pm_command"@, "pm_args"@)
}

/// Captures a file on the device with a shell line, then pulls it from
/// `remote` to `local`.
pub open spec fn capture_commands(args: Json, shell_line: Seq<char>, remote: Seq<char>, local: Seq<char>) -> Seq<Seq<Seq<char>>> {
    seq![on_device(args, seq!["shell"@, shell_line]), on_device(args, seq!["pull"@, remote, local])]
}

pub open spec fn inspect_ui_plan(args: Json, temp: Seq<char>, style: PathStyle) -> PlanModel {
    let local = join(style, temp, "window_dump.xml"@);
    PlanModel {
        prepare: Prep::Nothing,
        commands: capture_commands(
            args,
            "uiautomator dump "@ + "/sdcard/window_dump.xml"@,
            "/sdcard/window_dump.xml"@,
            local,
        ),
        collect: Coll::Document(local, flag(args, "as_base64"@, false)),
        cleanup: None,
    }
}

pub open spec fn screenshot_plan(args: Json, temp: Seq<char>, style: PathStyle) -> PlanModel {
    let local = join(style, temp, "screen.png"@);
    PlanModel {
        prepare: Prep::Nothing,
        commands: capture_commands(args, "screencap -p "@ + "/sdcard/screen.png"@, "/sdcard/screen.png"@, local),
        collect: if flag(args, "as_base64"@, false) {
            Coll::Download(local, true)
        } else {
            Coll::Discard(local)
        },
        cleanup: None,
    }
}

/// What a call of the tool `name` with these arguments will do, with
/// `temp` the directory for local files, named by the conventions of
/// `style`.
pub open spec fn tool_plan(name: Seq<char>, args: Json, temp: Seq<char>, style: PathStyle) -> Result<PlanModel, Failure> {
    if name == "adb_devices"@ {
        Ok(devices_plan())
    } else if name == "adb_shell"@ {
        shell_plan(args)
    } else if name == "adb_install"@ {
        install_plan(args)
    } else if name == "adb_logcat"@ {
        Ok(logcat_plan(args))
    } else if name == "adb_pull"@ {
        pull_plan(args, temp, style)
    } else if name == "adb_push"@ {
        push_plan(args, temp, style)
    } else if name == "adb_activity_manager"@ {
        activity_manager_plan(args)
    } else if name == "adb_package_manager"@ {
        package_manager_plan(args)
    } else if name == "adb_inspect_ui"@ {
        Ok(inspect_ui_plan(args, temp, style))
    } else if name == "adb_screenshot"@ {
        Ok(screenshot_plan(args, temp, style))
    } else {
        Err(Failure::UnknownTool(name))
    }
}

/// The view of a planned call.
pub open spec fn planned(r: Result<Plan, ToolError>) -> Result<PlanModel, Failure> {
    match r {
        Ok(p) => Ok(p@),
        Err(e) => Err(e@),
    }
}

// ---------------------------------------------------------------------------
// The replies of the protocol.
// ---------------------------------------------------------------------------

/// What `initialize` answers.
pub open spec fn initialize_json() -> Json {
    Json::Object(
        seq![
            ("capabilities"@, Json::Object(seq![("tools"@, Json::Object(seq![("listChanged"@, Json::Bool(false))]))])),
            ("protocolVersion"@, Json::Str("2024-11-05"@)),
            ("serverInfo"@, Json::Object(seq![("name"@, Json::Str("rs-adb-mcp"@)), ("version"@, Json::Str("0.1.0"@))])),
        ],
    )
}

/// What `tools/list` answers.
pub open spec fn tools_list_json() -> Json {
    Json::Object(seq![("tools"@, Json::Array(catalogue().map_values(|t| tool_json(t))))])
}

/// The text that a tool call answers with.
pub open spec fn call_text(outcome: Result<Seq<char>, Failure>) -> Seq<char> {
    match outcome {
        Ok(t) => t,
        Err(f) => "Error: "@ + failure_message(f),
    }
}

/// What `tools/call` answers once the tool has run.
pub open spec fn call_result_json(outcome: Result<Seq<char>, Failure>) -> Json {
    Json::Object(
        seq![
            ("content"@, Json::Array(seq![Json::Object(seq![("text"@, Json::Str(call_text(outcome))), ("type"@, Json::Str("text"@))])])),
            ("isError"@, Json::Bool(outcome is Err)),
        ],
    )
}

/// The name of the tool that call parameters ask for; empty when absent.
pub open spec fn call_name(params: Json) -> Seq<char> {
    match str_member(params, "name"@) {
        Some(n) => n,
        None => Seq::empty(),
    }
}

/// The arguments of a tool call; an empty object when absent.
pub open spec fn call_arguments(params: Json) -> Json {
    match json_get(params, "arguments"@) {
        Some(a) => a,
        None => Json::Object(Seq::empty()),
    }
}

/// Where a request leads: straight to a response, or to a tool call whose
/// outcome the response will carry.
pub enum Route {
    Respond(JsonRpcResponse),
    CallTool { id: JsonValue, name: String, arguments: JsonValue },
}

/// How a request is answered, stated over the request.
pub open spec fn routed(req: JsonRpcRequest, route: Route) -> bool {
    let id = req.id@;
    let method = req.method@;
    if method == "initialize"@ {
        route matches Route::Respond(r) && speaks_v2(r) && response_id(r) == id && response_json(r) == success_json(id, initialize_json())
    } else if method == "tools/list"@ {
        route matches Route::Respond(r) && speaks_v2(r) && response_id(r) == id && response_json(r) == success_json(id, tools_list_json())
    } else if method == "tools/call"@ {
        match req.params {
            Some(p) => route matches Route::CallTool { id: i, name, arguments } && i@ == id
                && name@ == call_name(p@) && arguments@ == call_arguments(p@),
            None => route matches Route::Respond(r) && speaks_v2(r) && response_id(r) == id && response_json(r) == error_json(
                id,
                INVALID_PARAMS,
                "Missing params"@,
            ),
        }
    } else {
        route matches Route::Respond(r) && speaks_v2(r) && response_id(r) == id && response_json(r) == error_json(
            id,
            METHOD_NOT_FOUND,
            "Method not found: "@ + method,
        )
    }
}

// ---------------------------------------------------------------------------
// Building blocks.
// ---------------------------------------------------------------------------

/// A list of owned words.
fn words(list: &[&str]) -> (v: Vec<String>)
    ensures
        texts(v@) == list@.map_values(|w: &str| w@),
{
    let mut v: Vec<String> = Vec::new();
    let mut i: usize = 0;
    while i < list.len()
        invariant
            i <= list@.len(),
            v@.len() == i,
            forall|j: int| 0 <= j < i ==> #[trigger] v@[j]@ == list@[j]@,
        decreases list@.len() - i,
    {
        v.push(list[i].to_owned());
        i = i + 1;
    }
    assert(texts(v@) =~= list@.map_values(|w: &str| w@));
    v
}

/// The text argument `key`, which the tool cannot do without.
fn required_text<'a>(args: &'a JsonValue, key: &str) -> (r: Result<&'a str, ToolError>)
    ensures
        match r {
            Ok(v) => str_member(args@, key@) == Some(v@),
            Err(e) => str_member(args@, key@) == None::<Seq<char>> && e@ == Failure::MissingArgument(
                key@,
            ),
        },
{
    match args.str_member(key) {
        Some(v) => Ok(v),
        None => Err(ToolError::MissingArgument(key.to_owned())),
    }
}

/// A boolean argument, `default` when absent or not a boolean.
fn flag_of(args: &JsonValue, key: &str, default: bool) -> (b: bool)
    ensures
        b == flag(args@, key@, default),
{
    match args.get(key) {
        Some(v) => match v.as_bool() {
            Some(b) => b,
            None => default,
        },
        None => default,
    }
}

/// An `adb` command on the device that the arguments name.
fn on_device_command(args: &JsonValue, words: Vec<String>) -> (argv: Vec<String>)
    ensures
        texts(argv@) == on_device(args@, texts(words@)),
{
    adb_command(args.str_member("device"), words)
}

/// A plan of one command whose output is the answer.
fn single_plan(command: Vec<String>) -> (p: Plan)
    ensures
        p@ == single(texts(command@)),
{
    let ghost c = texts(command@);
    let mut commands: Vec<Vec<String>> = Vec::new();
    commands.push(command);
    let p = Plan { prepare: Prepare::Nothing, commands, collect: Collect::Output, cleanup: None };
    assert(p@.commands =~= seq![c]);
    p
}

/// The shell line of a manager command.
fn manager_line_text(manager: &str, command: &str, extra: Option<&str>) -> (line: String)
    ensures
        line@ == manager_line(
            manager@,
            command@,
            match extra {
                Some(a) => Some(a@),
                None => None,
            },
        ),
{
    let base = manager.to_owned().concat(" ").concat(command);
    match extra {
        Some(a) => base.concat(" ").concat(a),
        None => base,
    }
}

/// The commands that capture a file on the device and pull it to `local`.
fn capture(args: &JsonValue, shell_line: String, remote: &str, local: &str) -> (commands: Vec<Vec<String>>)
    ensures
        commands@.map_values(|c: Vec<String>| texts(c@)) == capture_commands(args@, shell_line@, remote@, local@),
{
    let mut first: Vec<String> = Vec::new();
    first.push("shell".to_owned());
    first.push(shell_line);
    assert(texts(first@) =~= seq!["shell"@, shell_line@]);
    let first = on_device_command(args, first);
    let second = on_device_command(args, words(&["pull", remote, local]));
    assert(["pull", remote, local]@.map_values(|w: &str| w@) =~= seq!["pull"@, remote@, local@]);
    let mut commands: Vec<Vec<String>> = Vec::new();
    commands.push(first);
    commands.push(second);
    assert(commands@.map_values(|c: Vec<String>| texts(c@)) =~= capture_commands(
        args@,
        shell_line@,
        remote@,
        local@,
    ));
    commands
}

/// The MCP server: it advertises the ADB tools, plans their calls and
/// answers requests.
pub struct AdbMcpServer;

impl AdbMcpServer {
    pub fn new() -> Self {
        AdbMcpServer
    }

    /// The tools this server offers.
    pub fn get_tools(&self) -> (tools: Vec<Tool>)
        ensures
            tools@.map_values(|t: Tool| t@) == catalogue(),
    {
        catalogue_tools()
    }

    /// Lists the attached devices; the arguments are not read.
    pub fn adb_devices(&self, _arguments: &JsonValue) -> (r: Result<Plan, ToolError>)
        ensures
            planned(r) == Ok::<PlanModel, Failure>(devices_plan()),
    {
        let command = words(&["devices", "-l"]);
        assert(["devices", "-l"]@.map_values(|w: &str| w@) =~= seq!["devices"@, "-l"@]);
        Ok(single_plan(command))
    }

    /// Runs a shell command on the device.
    pub fn adb_shell(&self, arguments: &JsonValue) -> (r: Result<Plan, ToolError>)
        ensures
            planned(r) == shell_plan(arguments@),
    {
        let command = match required_text(arguments, "command") {
            Ok(c) => c,
            Err(e) => return Err(e),
        };
        let w = words(&["shell", command]);
        assert(["shell", command]@.map_values(|w: &str| w@) =~= seq!["shell"@, command@]);
        Ok(single_plan(on_device_command(arguments, w)))
    }

    /// Installs an APK that is on the local disk.
    pub fn adb_install(&self, arguments: &JsonValue) -> (r: Result<Plan, ToolError>)
        ensures
            planned(r) == install_plan(arguments@),
    {
        let apk = match required_text(arguments, "apk_path") {
            Ok(a) => a,
            Err(e) => return Err(e),
        };
        let w = words(&["install", apk]);
        assert(["install", apk]@.map_values(|w: &str| w@) =~= seq!["install"@, apk@]);
        let mut commands: Vec<Vec<String>> = Vec::new();
        commands.push(on_device_command(arguments, w));
        let p = Plan {
            prepare: Prepare::RequireFile(apk.to_owned()),
            commands,
            collect: Collect::Output,
            cleanup: None,
        };
        assert(p@.commands =~= seq![on_device(arguments@, seq!["install"@, apk@])]);
        Ok(p)
    }

    /// Dumps the device log.
    pub fn adb_logcat(&self, arguments: &JsonValue) -> (r: Result<Plan, ToolError>)
        ensures
            planned(r) == Ok::<PlanModel, Failure>(logcat_plan(arguments@)),
    {
        let lines: u64 = match arguments.get("lines") {
            Some(v) => match v.as_u64() {
                Some(n) => n,
                None => 50,
            },
            None => 50,
        };
        let count = decimal_text(lines);
        let mut w = words(&["logcat", "-d", "-t"]);
        assert(["logcat", "-d", "-t"]@.map_values(|w: &str| w@) =~= seq!["logcat"@, "-d"@, "-t"@]);
        let ghost head = texts(w@);
        w.push(count);
        assert(texts(w@) =~= head.push(decimal(lines as nat)));
        let ghost with_count = texts(w@);
        match arguments.str_member("filter") {
            Some(f) => {
                w.push("-s".to_owned());
                w.push(f.to_owned());
                assert(texts(w@) =~= with_count + seq!["-s"@, f@]);
            },
            None => {
                assert(texts(w@) =~= with_count + Seq::<Seq<char>>::empty());
            },
        }
        assert(with_count =~= seq!["logcat"@, "-d"@, "-t"@, decimal(lines_of(arguments@) as nat)]);
        Ok(single_plan(on_device_command(arguments, w)))
    }

    /// Fetches a file from the device.
    pub fn adb_pull(&self, arguments: &JsonValue, temp_dir: &str, style: PathStyle) -> (r: Result<Plan, ToolError>)
        ensures
            planned(r) == pull_plan(arguments@, temp_dir@, style),
    {
        let remote = match required_text(arguments, "remote_path") {
            Ok(p) => p,
            Err(e) => return Err(e),
        };
        let name = match file_name_of(remote, style) {
            Some(n) => n,
            None => "pulled_file".to_owned(),
        };
        let local = join_path(temp_dir, name.as_str(), style);
        let encode = flag_of(arguments, "as_base64", true);
        let local_text = local.as_str();
        let w = words(&["pull", remote, local_text]);
        assert(["pull", remote, local_text]@.map_values(|w: &str| w@) =~= seq!["pull"@, remote@, local@]);
        let mut commands: Vec<Vec<String>> = Vec::new();
        commands.push(on_device_command(arguments, w));
        let p = Plan {
            prepare: Prepare::Nothing,
            commands,
            collect: Collect::Download(local, encode),
            cleanup: None,
        };
        assert(p@.commands =~= seq![on_device(arguments@, seq!["pull"@, remote@, pull_target(style, temp_dir@, remote@)])]);
        Ok(p)
    }

    /// Sends a file, given as base64, to the device.  What a pull returns
    /// as base64 is uploaded as the very bytes it was made of, and the bytes
    /// uploaded are ones whose base64 is the text given.
    pub fn adb_push(&self, arguments: &JsonValue, temp_dir: &str, style: PathStyle) -> (r: Result<Plan, ToolError>)
        ensures
            planned(r) == push_plan(arguments@, temp_dir@, style),
            forall|b: Seq<u8>|
                str_member(arguments@, "file_base64"@) == Some(#[trigger] base64_encoding(b))
                    && str_member(arguments@, "remote_path"@) is Some ==> (r matches Ok(p)
                    && p@.prepare == Prep::StageUpload(join(style, temp_dir@, "push_temp"@), b)),
            r matches Ok(p) ==> (p@.prepare matches Prep::StageUpload(_, b) && str_member(
                arguments@,
                "file_base64"@,
            ) == Some(base64_encoding(b))),
    {
        let encoded = match required_text(arguments, "file_base64") {
            Ok(e) => e,
            Err(e) => return Err(e),
        };
        let remote = match required_text(arguments, "remote_path") {
            Ok(p) => p,
            Err(e) => return Err(e),
        };
        let bytes = match base64_decode(encoded) {
            Ok(b) => b,
            Err(e) => return Err(ToolError::InvalidBase64(e)),
        };
        let staged = join_path(temp_dir, "push_temp", style);
        let staged_text = staged.as_str();
        let w = words(&["push", staged_text, remote]);
        assert(["push", staged_text, remote]@.map_values(|w: &str| w@) =~= seq!["push"@, staged@, remote@]);
        let mut commands: Vec<Vec<String>> = Vec::new();
        commands.push(on_device_command(arguments, w));
        let p = Plan {
            prepare: Prepare::StageUpload(staged.clone(), bytes),
            commands,
            collect: Collect::Output,
            cleanup: Some(staged),
        };
        assert(p@.commands =~= seq![on_device(arguments@, seq!["push"@, join(style, temp_dir@, "push_temp"@), remote@])]);
        Ok(p)
    }

    /// Runs a manager command (`am`, `pm`) in the device shell.
    fn manager(&self, arguments: &JsonValue, manager: &str, command_key: &str, args_key: &str) -> (r: Result<Plan, ToolError>)
        ensures
            planned(r) == manager_plan(arguments@, manager@, command_key@, args_key@),
    {
        let command = match required_text(arguments, command_key) {
            Ok(c) => c,
            Err(e) => return Err(e),
        };
        let line = manager_line_text(manager, command, arguments.str_member(args_key));
        let line_text = line.as_str();
        let w = words(&["shell", line_text]);
        assert(["shell", line_text]@.map_values(|w: &str| w@) =~= seq!["shell"@, line@]);
        Ok(single_plan(on_device_command(arguments, w)))
    }

    /// Runs an Activity Manager command.
    pub fn adb_activity_manager(&self, arguments: &JsonValue) -> (r: Result<Plan, ToolError>)
        ensures
            planned(r) == activity_manager_plan(arguments@),
    {
        self.manager(arguments, "am", "am_command", "am_args")
    }

    /// Runs a Package Manager command.
    pub fn adb_package_manager(&self, arguments: &JsonValue) -> (r: Result<Plan, ToolError>)
        ensures
            planned(r) == package_manager_plan(arguments@),
    {
        self.manager(arguments, "pm", "pm_command", "pm_args")
    }

    /// Dumps the UI hierarchy of the screen and fetches it.
    pub fn adb_inspect_ui(&self, arguments: &JsonValue, temp_dir: &str, style: PathStyle) -> (r: Result<Plan, ToolError>)
        ensures
            planned(r) == Ok::<PlanModel, Failure>(inspect_ui_plan(arguments@, temp_dir@, style)),
    {
        let encode = flag_of(arguments, "as_base64", false);
        let local = join_path(temp_dir, "window_dump.xml", style);
        let line = "uiautomator dump ".to_owned().concat("/sdcard/window_dump.xml");
        let commands = capture(arguments, line, "/sdcard/window_dump.xml", local.as_str());
        Ok(Plan { prepare: Prepare::Nothing, commands, collect: Collect::Document(local, encode), cleanup: None })
    }

    /// Captures the screen and fetches the picture.
    pub fn adb_screenshot(&self, arguments: &JsonValue, temp_dir: &str, style: PathStyle) -> (r: Result<Plan, ToolError>)
        ensures
            planned(r) == Ok::<PlanModel, Failure>(screenshot_plan(arguments@, temp_dir@, style)),
    {
        let encode = flag_of(arguments, "as_base64", false);
        let local = join_path(temp_dir, "screen.png", style);
        let line = "screencap -p ".to_owned().concat("/sdcard/screen.png");
        let commands = capture(arguments, line, "/sdcard/screen.png", local.as_str());
        let collect = if encode {
            Collect::Download(local, true)
        } else {
            Collect::Discard(local)
        };
        Ok(Plan { prepare: Prepare::Nothing, commands, collect, cleanup: None })
    }

    /// What a call of the tool `name` will do, with `temp_dir` the directory
    /// for local files and `style` the path conventions of this machine.
    pub fn execute_tool(&self, name: &str, arguments: &JsonValue, temp_dir: &str, style: PathStyle) -> (r: Result<Plan, ToolError>)
        ensures
            planned(r) == tool_plan(name@, arguments@, temp_dir@, style),
    {
        if same_text(name, "adb_devices") {
            self.adb_devices(arguments)
        } else if same_text(name, "adb_shell") {
            self.adb_shell(arguments)
        } else if same_text(name, "adb_install") {
            self.adb_install(arguments)
        } else if same_text(name, "adb_logcat") {
            self.adb_logcat(arguments)
        } else if same_text(name, "adb_pull") {
            self.adb_pull(arguments, temp_dir, style)
        } else if same_text(name, "adb_push") {
            self.adb_push(arguments, temp_dir, style)
        } else if same_text(name, "adb_activity_manager") {
            self.adb_activity_manager(arguments)
        } else if same_text(name, "adb_package_manager") {
            self.adb_package_manager(arguments)
        } else if same_text(name, "adb_inspect_ui") {
            self.adb_inspect_ui(arguments, temp_dir, style)
        } else if same_text(name, "adb_screenshot") {
            self.adb_screenshot(arguments, temp_dir, style)
        } else {
            Err(ToolError::UnknownTool(name.to_owned()))
        }
    }

    /// Answers `initialize`.
    pub fn handle_initialize(&self, id: JsonValue) -> (r: JsonRpcResponse)
        ensures
            speaks_v2(r),
            response_id(r) == id@,
            response_json(r) == success_json(id@, initialize_json()),
    {
        let mut list_changed: Vec<(String, JsonValue)> = Vec::new();
        assert(members_model(list_changed@) =~= Seq::empty());
        push_member(&mut list_changed, "listChanged", JsonValue::Bool(false));
        let mut capabilities: Vec<(String, JsonValue)> = Vec::new();
        assert(members_model(capabilities@) =~= Seq::empty());
        push_member(&mut capabilities, "tools", JsonValue::Object(list_changed));
        let mut server_info: Vec<(String, JsonValue)> = Vec::new();
        assert(members_model(server_info@) =~= Seq::empty());
        push_member(&mut server_info, "name", JsonValue::text("rs-adb-mcp"));
        push_member(&mut server_info, "version", JsonValue::text("0.1.0"));
        assert(members_model(server_info@) =~= seq![("name"@, Json::Str("rs-adb-mcp"@)), ("version"@, Json::Str("0.1.0"@))]);
        let mut result: Vec<(String, JsonValue)> = Vec::new();
        assert(members_model(result@) =~= Seq::empty());
        push_member(&mut result, "capabilities", JsonValue::Object(capabilities));
        push_member(&mut result, "protocolVersion", JsonValue::text("2024-11-05"));
        push_member(&mut result, "serverInfo", JsonValue::Object(server_info));
        assert(members_model(result@) =~= seq![
            ("capabilities"@, Json::Object(seq![("tools"@, Json::Object(seq![("listChanged"@, Json::Bool(false))]))])),
            ("protocolVersion"@, Json::Str("2024-11-05"@)),
            ("serverInfo"@, Json::Object(seq![("name"@, Json::Str("rs-adb-mcp"@)), ("version"@, Json::Str("0.1.0"@))])),
        ]);
        JsonRpcResponse::Success(JsonRpcSuccessResponse::new(id, JsonValue::Object(result)))
    }

    /// Answers `tools/list`.
    pub fn handle_tools_list(&self, id: JsonValue) -> (r: JsonRpcResponse)
        ensures
            speaks_v2(r),
            response_id(r) == id@,
            response_json(r) == success_json(id@, tools_list_json()),
    {
        let mut rest = self.get_tools();
        let ghost all = catalogue();
        let ghost n = all.len();
        let mut items: Vec<JsonValue> = Vec::new();
        assert(items_model(items@) =~= all.subrange(0, 0).map_values(|t| tool_json(t)));
        assert(rest@.map_values(|t: Tool| t@) =~= all.subrange(0, n as int));
        while rest.len() > 0
            invariant
                all == catalogue(),
                n == all.len(),
                rest@.len() <= n,
                rest@.map_values(|t: Tool| t@) =~= all.subrange(n - rest@.len(), n as int),
                items_model(items@) =~= all.subrange(0, n - rest@.len()).map_values(|t| tool_json(t)),
            decreases rest@.len(),
        {
            let ghost k = n - rest@.len();
            let ghost before = items_model(items@);
            let ghost old_rest = rest@;
            assert(old_rest[0]@ == all[k]) by {
                assert(old_rest.map_values(|t: Tool| t@)[0] == all.subrange(k, n as int)[0]);
            }
            let t = rest.remove(0);
            assert(rest@.map_values(|t: Tool| t@) =~= all.subrange(k + 1, n as int)) by {
                assert forall|j: int| 0 <= j < rest@.len() implies #[trigger] rest@[j]@ == all[k + 1 + j] by {
                    assert(rest@[j] == old_rest[j + 1]);
                    assert(old_rest.map_values(|t: Tool| t@)[j + 1] == all.subrange(k, n as int)[j + 1]);
                }
            }
            push_item(&mut items, t.into_json());
            assert(items_model(items@) =~= all.subrange(0, k + 1).map_values(|t| tool_json(t))) by {
                assert(all.subrange(0, k + 1).map_values(|t| tool_json(t)) =~= all.subrange(0, k).map_values(
                    |t| tool_json(t),
                ).push(tool_json(all[k])));
            }
        }
        assert(all.subrange(0, n as int) =~= all);
        let mut result: Vec<(String, JsonValue)> = Vec::new();
        assert(members_model(result@) =~= Seq::empty());
        let ghost listed = items_model(items@);
        push_member(&mut result, "tools", JsonValue::Array(items));
        assert(members_model(result@) =~= seq![("tools"@, Json::Array(listed))]);
        JsonRpcResponse::Success(JsonRpcSuccessResponse::new(id, JsonValue::Object(result)))
    }

    /// Answers `tools/call` once the tool has run: always a successful
    /// response, whose result says whether the tool failed.
    pub fn handle_tools_call(&self, id: JsonValue, outcome: Result<String, ToolError>) -> (r: JsonRpcResponse)
        ensures
            speaks_v2(r),
            response_id(r) == id@,
            response_json(r) == success_json(id@, call_result_json(outcome_view(outcome))),
    {
        let ghost o = outcome_view(outcome);
        let (text, failed) = match outcome {
            Ok(t) => (t, false),
            Err(e) => ("Error: ".to_owned().concat(e.message().as_str()), true),
        };
        let mut entry: Vec<(String, JsonValue)> = Vec::new();
        assert(members_model(entry@) =~= Seq::empty());
        push_member(&mut entry, "text", JsonValue::Str(text));
        push_member(&mut entry, "type", JsonValue::text("text"));
        let ghost entry_json = Json::Object(members_model(entry@));
        assert(members_model(entry@) =~= seq![("text"@, Json::Str(call_text(o))), ("type"@, Json::Str("text"@))]);
        let mut content: Vec<JsonValue> = Vec::new();
        assert(items_model(content@) =~= Seq::empty());
        push_item(&mut content, JsonValue::Object(entry));
        assert(items_model(content@) =~= seq![entry_json]);
        let mut result: Vec<(String, JsonValue)> = Vec::new();
        assert(members_model(result@) =~= Seq::empty());
        push_member(&mut result, "content", JsonValue::Array(content));
        push_member(&mut result, "isError", JsonValue::Bool(failed));
        assert(members_model(result@) =~= seq![
            ("content"@, Json::Array(seq![entry_json])),
            ("isError"@, Json::Bool(o is Err)),
        ]);
        JsonRpcResponse::Success(JsonRpcSuccessResponse::new(id, JsonValue::Object(result)))
    }

    /// Decides how a request is answered: `initialize` and `tools/list`
    /// directly, `tools/call` through a tool run, anything else with an
    /// error.
    pub fn route(&self, request: JsonRpcRequest) -> (route: Route)
        ensures
            routed(request, route),
    {
        let JsonRpcRequest { jsonrpc: _, id, method, params } = request;
        if same_text(method.as_str(), "initialize") {
            Route::Respond(self.handle_initialize(id))
        } else if same_text(method.as_str(), "tools/list") {
            Route::Respond(self.handle_tools_list(id))
        } else if same_text(method.as_str(), "tools/call") {
            match params {
                Some(p) => {
                    let name = match p.str_member("name") {
                        Some(n) => n.to_owned(),
                        None => String::new(),
                    };
                    let arguments = match p.take("arguments") {
                        Some(a) => a,
                        None => JsonValue::empty_object(),
                    };
                    Route::CallTool { id, name, arguments }
                },
                None => Route::Respond(
                    JsonRpcResponse::Error(
                        JsonRpcErrorResponse::new(id, INVALID_PARAMS, "Missing params".to_owned()),
                    ),
                ),
            }
        } else {
            let message = "Method not found: ".to_owned().concat(method.as_str());
            Route::Respond(
                JsonRpcResponse::Error(JsonRpcErrorResponse::new(id, METHOD_NOT_FOUND, message)),
            )
        }
    }
}

} // verus!
