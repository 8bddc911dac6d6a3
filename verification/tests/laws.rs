use rs_adb_mcp::errors::ToolError;
use rs_adb_mcp::json::JsonValue;
use rs_adb_mcp::path::{join_path, PathStyle};
use rs_adb_mcp::server::AdbMcpServer;
use rs_adb_mcp::session::{Event, Plan, Step, ToolRun};

fn object(members: Vec<(&str, JsonValue)>) -> JsonValue {
    JsonValue::Object(members.into_iter().map(|(k, v)| (k.to_string(), v)).collect())
}

fn required_of(schema: &JsonValue) -> Vec<String> {
    match schema.get("required") {
        Some(JsonValue::Array(items)) => {
            items.iter().map(|i| i.as_str().unwrap().to_string()).collect()
        }
        _ => Vec::new(),
    }
}

fn is_unknown(r: &Result<Plan, ToolError>) -> bool {
    matches!(r, Err(ToolError::UnknownTool(_)))
}

#[test]
fn every_listed_tool_is_callable() {
    let server = AdbMcpServer::new();
    let tools = server.get_tools();
    assert_eq!(tools.len(), 10);
    for tool in &tools {
        assert!(!is_unknown(&server.execute_tool(&tool.name, &JsonValue::Null, "/tmp", PathStyle::Unix)));
    }
    assert!(is_unknown(&server.execute_tool("adb_devicesx", &JsonValue::Null, "/tmp", PathStyle::Unix)));
}

#[test]
fn required_parameters_are_enforced() {
    let server = AdbMcpServer::new();
    for tool in server.get_tools() {
        let required = required_of(&tool.input_schema);
        let r = server.execute_tool(&tool.name, &object(vec![]), "/tmp", PathStyle::Unix);
        match required.first() {
            Some(first) => match r {
                Err(ToolError::MissingArgument(a)) => assert_eq!(&a, first),
                _ => panic!("{} should need {}", tool.name, first),
            },
            None => assert!(r.is_ok(), "{} needs nothing", tool.name),
        }
        let all: Vec<(&str, JsonValue)> = required
            .iter()
            .map(|k| (k.as_str(), JsonValue::Str("aGk=".to_string())))
            .collect();
        let r = server.execute_tool(&tool.name, &object(all), "/tmp", PathStyle::Unix);
        assert!(r.is_ok(), "{} with all it needs", tool.name);
    }
}

#[test]
fn commands_target_the_named_device() {
    let server = AdbMcpServer::new();
    for tool in server.get_tools() {
        let mut members: Vec<(&str, JsonValue)> = vec![("device", JsonValue::Str("dev7".to_string()))];
        for k in required_of(&tool.input_schema) {
            members.push((Box::leak(k.into_boxed_str()), JsonValue::Str("aGk=".to_string())));
        }
        let plan = server.execute_tool(&tool.name, &object(members), "/tmp", PathStyle::Unix).unwrap();
        for command in &plan.commands {
            if tool.name == "adb_devices" {
                assert_ne!(command[0], "-s");
            } else {
                assert_eq!(&command[0..2], &["-s".to_string(), "dev7".to_string()]);
            }
        }
    }
}

#[test]
fn pulled_files_stay_in_the_temp_dir() {
    let server = AdbMcpServer::new();
    for remote in ["/sdcard/a.png", "/", "..", "/sdcard/../../etc/passwd", "x/.."] {
        let args = object(vec![("remote_path", JsonValue::Str(remote.to_string()))]);
        let plan = server.execute_tool("adb_pull", &args, "/tmp/t", PathStyle::Unix).unwrap();
        let local = &plan.commands[0][2];
        assert!(local.starts_with("/tmp/t/"), "{} -> {}", remote, local);
        assert!(!local["/tmp/t/".len()..].contains('/'));
        assert_ne!(&local["/tmp/t/".len()..], "..");
    }
    assert_eq!(join_path("/tmp/t", "pulled_file", PathStyle::Unix), "/tmp/t/pulled_file");
}

#[test]
fn every_run_ends_within_its_bound() {
    let server = AdbMcpServer::new();
    for tool in server.get_tools() {
        let all: Vec<(&str, JsonValue)> = vec![
            ("command", JsonValue::Str("x".to_string())),
            ("apk_path", JsonValue::Str("x".to_string())),
            ("remote_path", JsonValue::Str("x".to_string())),
            ("file_base64", JsonValue::Str("aGk=".to_string())),
            ("am_command", JsonValue::Str("x".to_string())),
            ("pm_command", JsonValue::Str("x".to_string())),
            ("as_base64", JsonValue::Bool(true)),
        ];
        let plan = server.execute_tool(&tool.name, &object(all), "/tmp", PathStyle::Unix).unwrap();
        let bound = plan.commands.len() + 3;
        let mut step = ToolRun::start(plan);
        let mut answers = 0;
        loop {
            match step {
                Step::Finish(outcome) => {
                    assert!(outcome.is_ok());
                    break;
                }
                Step::Perform(run, action) => {
                    answers += 1;
                    assert!(answers <= bound);
                    let event = match action {
                        rs_adb_mcp::session::Action::RunAdb(_) => Event::AdbExited {
                            success: true,
                            stdout: b"ok".to_vec(),
                            stderr: Vec::new(),
                        },
                        rs_adb_mcp::session::Action::CheckFile(_) => Event::FileChecked(true),
                        rs_adb_mcp::session::Action::ReadBytes(_) => Event::BytesRead(Ok(b"data".to_vec())),
                        rs_adb_mcp::session::Action::ReadText(_) => Event::TextRead(Ok("data".to_string())),
                        rs_adb_mcp::session::Action::WriteBytes(_, _) => Event::BytesWritten(Ok(())),
                        rs_adb_mcp::session::Action::RemoveFile(_) => Event::FileRemoved,
                    };
                    step = run.step(event);
                }
            }
        }
    }
}
