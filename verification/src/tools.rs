use vstd::prelude::*;

use crate::json::{items_model, members_model, push_item, push_member, Json, JsonValue};

verus! {

/// A tool as the server advertises it.
#[derive(Debug)]
pub struct Tool {
    pub name: String,
    pub description: String,
    pub input_schema: JsonValue,
}

/// The model of an advertised tool.
pub struct ToolSpec {
    pub name: Seq<char>,
    pub description: Seq<char>,
    pub input_schema: Json,
}

/// The schema of one parameter.
pub open spec fn property_json(kind: Seq<char>, description: Seq<char>) -> Json {
    Json::Object(seq![("description"@, Json::Str(description)), ("type"@, Json::Str(kind))])
}

/// The schema of a tool's arguments: an object with these properties, of
/// which these are required.
pub open spec fn schema_json(properties: Seq<(Seq<char>, Json)>, required: Seq<Seq<char>>) -> Json {
    Json::Object(
        seq![
            ("properties"@, Json::Object(properties)),
            ("required"@, Json::Array(required.map_values(|r: Seq<char>| Json::Str(r)))),
            ("type"@, Json::Str("object"@)),
        ],
    )
}

/// The JSON of an advertised tool, members in key order.
pub open spec fn tool_json(t: ToolSpec) -> Json {
    Json::Object(
        seq![
            ("description"@, Json::Str(t.description)),
            ("inputSchema"@, t.input_schema),
            ("name"@, Json::Str(t.name)),
        ],
    )
}

pub open spec fn device_property() -> (Seq<char>, Json) {
    ("device"@, property_json("string"@, "Device ID (optional)"@))
}

pub open spec fn remote_path_property() -> (Seq<char>, Json) {
    ("remote_path"@, property_json("string"@, "Remote file path on the device"@))
}

/// The tools this server offers, in the order in which it lists them.
pub open spec fn catalogue() -> Seq<ToolSpec> {
    seq![
        ToolSpec {
            name: "adb_devices"@,
            description: "Lists all connected Android devices and emulators with their status and details"@,
            input_schema: schema_json(Seq::empty(), Seq::empty()),
        },
        ToolSpec {
            name: "adb_shell"@,
            description: "Executes a shell command on a connected Android device or emulator"@,
            input_schema: schema_json(
                seq![("command"@, property_json("string"@, "Shell command to execute"@)), device_property()],
                seq!["command"@],
            ),
        },
        ToolSpec {
            name: "adb_install"@,
            description: "Installs an Android application (APK) on a connected device or emulator"@,
            input_schema: schema_json(
                seq![("apk_path"@, property_json("string"@, "Local path to APK file"@)), device_property()],
                seq!["apk_path"@],
            ),
        },
        ToolSpec {
            name: "adb_logcat"@,
            description: "Retrieves Android system and application logs from a connected device"@,
            input_schema: schema_json(
                seq![
                    device_property(),
                    ("filter"@, property_json("string"@, "Logcat filter expression (optional)"@)),
                    ("lines"@, property_json("integer"@, "Number of lines to return (default: 50)"@)),
                ],
                Seq::empty(),
            ),
        },
        ToolSpec {
            name: "adb_pull"@,
            description: "Transfers a file from a connected Android device"@,
            input_schema: schema_json(
                seq![
                    ("as_base64"@, property_json("boolean"@, "Return as base64 (default: true)"@)),
                    device_property(),
                    remote_path_property(),
                ],
                seq!["remote_path"@],
            ),
        },
        ToolSpec {
            name: "adb_push"@,
            description: "Transfers a file from the server to a connected Android device"@,
            input_schema: schema_json(
                seq![
                    device_property(),
                    ("file_base64"@, property_json("string"@, "Base64 encoded file content"@)),
                    remote_path_property(),
                ],
                seq!["file_base64"@, "remote_path"@],
            ),
        },
        ToolSpec {
            name: "adb_activity_manager"@,
            description: "Executes Activity Manager (am) commands on a connected Android device"@,
            input_schema: schema_json(
                seq![
                    ("am_args"@, property_json("string"@, "Arguments for the am subcommand"@)),
                    ("am_command"@, property_json("string"@, "Activity Manager subcommand (e.g., 'start', 'broadcast', 'force-stop')"@)),
                    device_property(),
                ],
                seq!["am_command"@],
            ),
        },
        ToolSpec {
            name: "adb_package_manager"@,
            description: "Executes Package Manager (pm) commands on a connected Android device"@,
            input_schema: schema_json(
                seq![
                    device_property(),
                    ("pm_args"@, property_json("string"@, "Arguments for the pm subcommand"@)),
                    ("pm_command"@, property_json("string"@, "Package Manager subcommand (e.g., 'list', 'grant', 'revoke')"@)),
                ],
                seq!["pm_command"@],
            ),
        },
        ToolSpec {
            name: "adb_inspect_ui"@,
            description: "Captures the complete UI hierarchy of the current screen as XML"@,
            input_schema: schema_json(
                seq![
                    ("as_base64"@, property_json("boolean"@, "Return XML as base64 (default: false)"@)),
                    device_property(),
                ],
                Seq::empty(),
            ),
        },
        ToolSpec {
            name: "adb_screenshot"@,
            description: "Captures the current screen of a connected Android device"@,
            input_schema: schema_json(
                seq![
                    ("as_base64"@, property_json("boolean"@, "Return as base64 (default: false)"@)),
                    device_property(),
                ],
                Seq::empty(),
            ),
        },
    ]
}

impl View for Tool {
    type V = ToolSpec;

    open spec fn view(&self) -> ToolSpec {
        ToolSpec { name: self.name@, description: self.description@, input_schema: self.input_schema@ }
    }
}

impl Tool {
    /// The tool as a JSON object, members in key order.
    pub fn into_json(self) -> (j: JsonValue)
        ensures
            j@ == tool_json(self@),
    {
        let ghost want = seq![
            ("description"@, Json::Str(self.description@)),
            ("inputSchema"@, self.input_schema@),
            ("name"@, Json::Str(self.name@)),
        ];
        let mut members: Vec<(String, JsonValue)> = Vec::new();
        assert(members_model(members@) =~= Seq::empty());
        push_member(&mut members, "description", JsonValue::Str(self.description));
        push_member(&mut members, "inputSchema", self.input_schema);
        push_member(&mut members, "name", JsonValue::Str(self.name));
        assert(members_model(members@) =~= want);
        JsonValue::Object(members)
    }
}

/// Adds the schema of one parameter to a list of properties.
fn add_property(props: &mut Vec<(String, JsonValue)>, name: &str, kind: &str, description: &str)
    ensures
        members_model(final(props)@) == members_model(old(props)@).push(
            (name@, property_json(kind@, description@)),
        ),
{
    let mut fields: Vec<(String, JsonValue)> = Vec::new();
    assert(members_model(fields@) =~= Seq::empty());
    push_member(&mut fields, "description", JsonValue::text(description));
    push_member(&mut fields, "type", JsonValue::text(kind));
    assert(members_model(fields@) =~= seq![("description"@, Json::Str(description@)), ("type"@, Json::Str(kind@))]);
    push_member(props, name, JsonValue::Object(fields));
}

fn add_device_property(props: &mut Vec<(String, JsonValue)>)
    ensures
        members_model(final(props)@) == members_model(old(props)@).push(device_property()),
{
    add_property(props, "device", "string", "Device ID (optional)");
}

fn add_remote_path_property(props: &mut Vec<(String, JsonValue)>)
    ensures
        members_model(final(props)@) == members_model(old(props)@).push(remote_path_property()),
{
    add_property(props, "remote_path", "string", "Remote file path on the device");
}

/// The schema of an argument object.
fn schema(properties: Vec<(String, JsonValue)>, required: &[&str]) -> (j: JsonValue)
    ensures
        j@ == schema_json(
            members_model(properties@),
            required@.map_values(|r: &str| r@),
        ),
{
    let mut names: Vec<JsonValue> = Vec::new();
    let mut i: usize = 0;
    assert(items_model(names@) =~= Seq::empty());
    while i < required.len()
        invariant
            i <= required@.len(),
            items_model(names@) =~= required@.subrange(0, i as int).map_values(|r: &str| Json::Str(r@)),
        decreases required@.len() - i,
    {
        let ghost before = items_model(names@);
        push_item(&mut names, JsonValue::text(required[i]));
        assert(required@.subrange(0, i + 1).map_values(|r: &str| Json::Str(r@)) =~= before.push(
            Json::Str(required@[i as int]@),
        ));
        i = i + 1;
    }
    assert(required@.subrange(0, i as int) =~= required@);
    assert(required@.map_values(|r: &str| Json::Str(r@)) =~= required@.map_values(|r: &str| r@).map_values(
        |r: Seq<char>| Json::Str(r),
    ));
    let mut members: Vec<(String, JsonValue)> = Vec::new();
    assert(members_model(members@) =~= Seq::empty());
    let ghost props = members_model(properties@);
    let ghost items = items_model(names@);
    push_member(&mut members, "properties", JsonValue::Object(properties));
    push_member(&mut members, "required", JsonValue::Array(names));
    push_member(&mut members, "type", JsonValue::text("object"));
    assert(members_model(members@) =~= seq![
        ("properties"@, Json::Object(props)),
        ("required"@, Json::Array(items)),
        ("type"@, Json::Str("object"@)),
    ]);
    JsonValue::Object(members)
}

/// The advertisement of `adb_devices`.
fn devices_tool() -> (t: Tool)
    ensures
        t@ == catalogue()[0],
{
    let mut props: Vec<(String, JsonValue)> = Vec::new();
    assert(members_model(props@) =~= Seq::empty());
    let required: [&str; 0] = [];
    assert(members_model(props@) =~= Seq::<(Seq<char>, Json)>::empty());
    let input_schema = schema(props, required.as_slice());
    assert(required@.map_values(|r: &str| r@) =~= Seq::<Seq<char>>::empty());
    Tool { name: "adb_devices".to_owned(), description: "Lists all connected Android devices and emulators with their status and details".to_owned(), input_schema }
}

/// The advertisement of `adb_shell`.
fn shell_tool() -> (t: Tool)
    ensures
        t@ == catalogue()[1],
{
    let mut props: Vec<(String, JsonValue)> = Vec::new();
    assert(members_model(props@) =~= Seq::empty());
    add_property(&mut props, "command", "string", "Shell command to execute");
    add_device_property(&mut props);
    let required: [&str; 1] = ["command"];
    assert(members_model(props@) =~= seq![("command"@, property_json("string"@, "Shell command to execute"@)), device_property()]);
    let input_schema = schema(props, required.as_slice());
    assert(required@.map_values(|r: &str| r@) =~= seq!["command"@]);
    Tool { name: "adb_shell".to_owned(), description: "Executes a shell command on a connected Android device or emulator".to_owned(), input_schema }
}

/// The advertisement of `adb_install`.
fn install_tool() -> (t: Tool)
    ensures
        t@ == catalogue()[2],
{
    let mut props: Vec<(String, JsonValue)> = Vec::new();
    assert(members_model(props@) =~= Seq::empty());
    add_property(&mut props, "apk_path", "string", "Local path to APK file");
    add_device_property(&mut props);
    let required: [&str; 1] = ["apk_path"];
    assert(members_model(props@) =~= seq![("apk_path"@, property_json("string"@, "Local path to APK file"@)), device_property()]);
    let input_schema = schema(props, required.as_slice());
    assert(required@.map_values(|r: &str| r@) =~= seq!["apk_path"@]);
    Tool { name: "adb_install".to_owned(), description: "Installs an Android application (APK) on a connected device or emulator".to_owned(), input_schema }
}

/// The advertisement of `adb_logcat`.
fn logcat_tool() -> (t: Tool)
    ensures
        t@ == catalogue()[3],
{
    let mut props: Vec<(String, JsonValue)> = Vec::new();
    assert(members_model(props@) =~= Seq::empty());
    add_device_property(&mut props);
    add_property(&mut props, "filter", "string", "Logcat filter expression (optional)");
    add_property(&mut props, "lines", "integer", "Number of lines to return (default: 50)");
    let required: [&str; 0] = [];
    assert(members_model(props@) =~= seq![device_property(), ("filter"@, property_json("string"@, "Logcat filter expression (optional)"@)), ("lines"@, property_json("integer"@, "Number of lines to return (default: 50)"@))]);
    let input_schema = schema(props, required.as_slice());
    assert(required@.map_values(|r: &str| r@) =~= Seq::<Seq<char>>::empty());
    Tool { name: "adb_logcat".to_owned(), description: "Retrieves Android system and application logs from a connected device".to_owned(), input_schema }
}

/// The advertisement of `adb_pull`.
fn pull_tool() -> (t: Tool)
    ensures
        t@ == catalogue()[4],
{
    let mut props: Vec<(String, JsonValue)> = Vec::new();
    assert(members_model(props@) =~= Seq::empty());
    add_property(&mut props, "as_base64", "boolean", "Return as base64 (default: true)");
    add_device_property(&mut props);
    add_remote_path_property(&mut props);
    let required: [&str; 1] = ["remote_path"];
    assert(members_model(props@) =~= seq![("as_base64"@, property_json("boolean"@, "Return as base64 (default: true)"@)), device_property(), remote_path_property()]);
    let input_schema = schema(props, required.as_slice());
    assert(required@.map_values(|r: &str| r@) =~= seq!["remote_path"@]);
    Tool { name: "adb_pull".to_owned(), description: "Transfers a file from a connected Android device".to_owned(), input_schema }
}

/// The advertisement of `adb_push`.
fn push_tool() -> (t: Tool)
    ensures
        t@ == catalogue()[5],
{
    let mut props: Vec<(String, JsonValue)> = Vec::new();
    assert(members_model(props@) =~= Seq::empty());
    add_device_property(&mut props);
    add_property(&mut props, "file_base64", "string", "Base64 encoded file content");
    add_remote_path_property(&mut props);
    let required: [&str; 2] = ["file_base64", "remote_path"];
    assert(members_model(props@) =~= seq![device_property(), ("file_base64"@, property_json("string"@, "Base64 encoded file content"@)), remote_path_property()]);
    let input_schema = schema(props, required.as_slice());
    assert(required@.map_values(|r: &str| r@) =~= seq!["file_base64"@, "remote_path"@]);
    Tool { name: "adb_push".to_owned(), description: "Transfers a file from the server to a connected Android device".to_owned(), input_schema }
}

/// The advertisement of `adb_activity_manager`.
fn activity_manager_tool() -> (t: Tool)
    ensures
        t@ == catalogue()[6],
{
    let mut props: Vec<(String, JsonValue)> = Vec::new();
    assert(members_model(props@) =~= Seq::empty());
    add_property(&mut props, "am_args", "string", "Arguments for the am subcommand");
    add_property(&mut props, "am_command", "string", "Activity Manager subcommand (e.g., 'start', 'broadcast', 'force-stop')");
    add_device_property(&mut props);
    let required: [&str; 1] = ["am_command"];
    assert(members_model(props@) =~= seq![("am_args"@, property_json("string"@, "Arguments for the am subcommand"@)), ("am_command"@, property_json("string"@, "Activity Manager subcommand (e.g., 'start', 'broadcast', 'force-stop')"@)), device_property()]);
    let input_schema = schema(props, required.as_slice());
    assert(required@.map_values(|r: &str| r@) =~= seq!["am_command"@]);
    Tool { name: "adb_activity_manager".to_owned(), description: "Executes Activity Manager (am) commands on a connected Android device".to_owned(), input_schema }
}

/// The advertisement of `adb_package_manager`.
fn package_manager_tool() -> (t: Tool)
    ensures
        t@ == catalogue()[7],
{
    let mut props: Vec<(String, JsonValue)> = Vec::new();
    assert(members_model(props@) =~= Seq::empty());
    add_device_property(&mut props);
    add_property(&mut props, "pm_args", "string", "Arguments for the pm subcommand");
    add_property(&mut props, "pm_command", "string", "Package Manager subcommand (e.g., 'list', 'grant', 'revoke')");
    let required: [&str; 1] = ["pm_command"];
    assert(members_model(props@) =~= seq![device_property(), ("pm_args"@, property_json("string"@, "Arguments for the pm subcommand"@)), ("pm_command"@, property_json("string"@, "Package Manager subcommand (e.g., 'list', 'grant', 'revoke')"@))]);
    let input_schema = schema(props, required.as_slice());
    assert(required@.map_values(|r: &str| r@) =~= seq!["pm_command"@]);
    Tool { name: "adb_package_manager".to_owned(), description: "Executes Package Manager (pm) commands on a connected Android device".to_owned(), input_schema }
}

/// The advertisement of `adb_inspect_ui`.
fn inspect_ui_tool() -> (t: Tool)
    ensures
        t@ == catalogue()[8],
{
    let mut props: Vec<(String, JsonValue)> = Vec::new();
    assert(members_model(props@) =~= Seq::empty());
    add_property(&mut props, "as_base64", "boolean", "Return XML as base64 (default: false)");
    add_device_property(&mut props);
    let required: [&str; 0] = [];
    assert(members_model(props@) =~= seq![("as_base64"@, property_json("boolean"@, "Return XML as base64 (default: false)"@)), device_property()]);
    let input_schema = schema(props, required.as_slice());
    assert(required@.map_values(|r: &str| r@) =~= Seq::<Seq<char>>::empty());
    Tool { name: "adb_inspect_ui".to_owned(), description: "Captures the complete UI hierarchy of the current screen as XML".to_owned(), input_schema }
}

/// The advertisement of `adb_screenshot`.
fn screenshot_tool() -> (t: Tool)
    ensures
        t@ == catalogue()[9],
{
    let mut props: Vec<(String, JsonValue)> = Vec::new();
    assert(members_model(props@) =~= Seq::empty());
    add_property(&mut props, "as_base64", "boolean", "Return as base64 (default: false)");
    add_device_property(&mut props);
    let required: [&str; 0] = [];
    assert(members_model(props@) =~= seq![("as_base64"@, property_json("boolean"@, "Return as base64 (default: false)"@)), device_property()]);
    let input_schema = schema(props, required.as_slice());
    assert(required@.map_values(|r: &str| r@) =~= Seq::<Seq<char>>::empty());
    Tool { name: "adb_screenshot".to_owned(), description: "Captures the current screen of a connected Android device".to_owned(), input_schema }
}

/// The tools this server offers, in the order in which it lists them.
pub fn catalogue_tools() -> (tools: Vec<Tool>)
    ensures
        tools@.map_values(|t: Tool| t@) == catalogue(),
{
    let mut tools: Vec<Tool> = Vec::new();
    tools.push(devices_tool());
    tools.push(shell_tool());
    tools.push(install_tool());
    tools.push(logcat_tool());
    tools.push(pull_tool());
    tools.push(push_tool());
    tools.push(activity_manager_tool());
    tools.push(package_manager_tool());
    tools.push(inspect_ui_tool());
    tools.push(screenshot_tool());
    assert(tools@.map_values(|t: Tool| t@) =~= catalogue());
    tools
}

} // verus!
