use rs_adb_mcp::codec::Base64Error;
use rs_adb_mcp::errors::ToolError;
use rs_adb_mcp::json::{JsonNumber, JsonValue};
use rs_adb_mcp::path::PathStyle;
use rs_adb_mcp::server::AdbMcpServer;
use rs_adb_mcp::session::{Action, Collect, Event, Plan, Prepare, Step, ToolRun};

const TEMP: &str = "/tmp";

fn object(members: Vec<(&str, JsonValue)>) -> JsonValue {
    JsonValue::Object(members.into_iter().map(|(k, v)| (k.to_string(), v)).collect())
}

fn text(s: &str) -> JsonValue {
    JsonValue::Str(s.to_string())
}

fn plan(name: &str, args: JsonValue) -> Result<Plan, ToolError> {
    AdbMcpServer::new().execute_tool(name, &args, TEMP, PathStyle::Unix)
}

fn commands(p: &Plan) -> Vec<Vec<&str>> {
    p.commands.iter().map(|c| c.iter().map(|s| s.as_str()).collect()).collect()
}

fn failure(r: Result<Plan, ToolError>) -> String {
    match r {
        Ok(_) => panic!("expected a failure"),
        Err(e) => e.message(),
    }
}

fn ok_exit(out: &str) -> Event {
    Event::AdbExited { success: true, stdout: out.as_bytes().to_vec(), stderr: Vec::new() }
}

/// Feeds the events to a run, checking the action asked for before each.
fn drive(p: Plan, script: Vec<(Action, Event)>) -> Result<String, ToolError> {
    let mut step = ToolRun::start(p);
    for (want, event) in script {
        match step {
            Step::Finish(_) => panic!("the run ended early"),
            Step::Perform(run, action) => {
                assert_eq!(describe(&action), describe(&want));
                assert!(run.accepts(&event));
                step = run.step(event);
            }
        }
    }
    match step {
        Step::Finish(outcome) => outcome,
        Step::Perform(_, a) => panic!("the run still asks for {}", describe(&a)),
    }
}

fn describe(a: &Action) -> String {
    match a {
        Action::RunAdb(argv) => format!("adb {}", argv.join(" ")),
        Action::CheckFile(p) => format!("check {}", p),
        Action::ReadBytes(p) => format!("read {}", p),
        Action::ReadText(p) => format!("read text {}", p),
        Action::WriteBytes(p, b) => format!("write {} {:?}", p, b),
        Action::RemoveFile(p) => format!("remove {}", p),
    }
}

fn adb(words: &[&str]) -> Action {
    Action::RunAdb(words.iter().map(|w| w.to_string()).collect())
}

#[test]
fn devices_lists_without_selecting_a_device() {
    let p = plan("adb_devices", object(vec![("device", text("emulator-5554"))])).unwrap();
    assert_eq!(commands(&p), vec![vec!["devices", "-l"]]);
    let out = drive(p, vec![(adb(&["devices", "-l"]), ok_exit("List of devices attached\n"))]);
    assert_eq!(out.unwrap(), "List of devices attached\n");
}

#[test]
fn shell_runs_on_the_named_device() {
    let args = object(vec![("device", text("emulator-5554")), ("command", text("ls -la /sdcard"))]);
    let p = plan("adb_shell", args).unwrap();
    assert_eq!(commands(&p), vec![vec!["-s", "emulator-5554", "shell", "ls -la /sdcard"]]);
}

#[test]
fn shell_requires_a_command() {
    assert_eq!(failure(plan("adb_shell", object(vec![]))), "Missing 'command' argument");
    let not_text = object(vec![("command", JsonValue::Bool(true))]);
    assert_eq!(failure(plan("adb_shell", not_text)), "Missing 'command' argument");
}

#[test]
fn unknown_tool_is_refused() {
    assert_eq!(failure(plan("adb_reboot", object(vec![]))), "Unknown tool: adb_reboot");
    assert_eq!(failure(plan("", object(vec![]))), "Unknown tool: ");
}

#[test]
fn install_checks_the_apk_first() {
    let p = plan("adb_install", object(vec![("apk_path", text("/x/app.apk"))])).unwrap();
    let out = drive(p, vec![(Action::CheckFile("/x/app.apk".to_string()), Event::FileChecked(false))]);
    assert_eq!(out.unwrap_err().message(), "APK file not found: /x/app.apk");
    let p = plan("adb_install", object(vec![("apk_path", text("/x/app.apk"))])).unwrap();
    let out = drive(
        p,
        vec![
            (Action::CheckFile("/x/app.apk".to_string()), Event::FileChecked(true)),
            (adb(&["install", "/x/app.apk"]), ok_exit("Success\n")),
        ],
    );
    assert_eq!(out.unwrap(), "Success\n");
}

#[test]
fn logcat_defaults_to_fifty_lines() {
    let p = plan("adb_logcat", object(vec![])).unwrap();
    assert_eq!(commands(&p), vec![vec!["logcat", "-d", "-t", "50"]]);
    let p = plan("adb_logcat", JsonValue::Null).unwrap();
    assert_eq!(commands(&p), vec![vec!["logcat", "-d", "-t", "50"]]);
}

#[test]
fn logcat_with_lines_and_filter() {
    let args = object(vec![
        ("lines", JsonValue::Number(JsonNumber::PosInt(100))),
        ("filter", text("ActivityManager")),
    ]);
    let p = plan("adb_logcat", args).unwrap();
    assert_eq!(commands(&p), vec![vec!["logcat", "-d", "-t", "100", "-s", "ActivityManager"]]);
    let negative = object(vec![("lines", JsonValue::Number(JsonNumber::NegInt(-5)))]);
    let p = plan("adb_logcat", negative).unwrap();
    assert_eq!(commands(&p), vec![vec!["logcat", "-d", "-t", "50"]]);
}

#[test]
fn pull_returns_base64_by_default() {
    let p = plan("adb_pull", object(vec![("remote_path", text("/sdcard/screenshot.png"))])).unwrap();
    let local = "/tmp/screenshot.png".to_string();
    let out = drive(
        p,
        vec![
            (adb(&["pull", "/sdcard/screenshot.png", "/tmp/screenshot.png"]), ok_exit("1 file pulled")),
            (Action::ReadBytes(local.clone()), Event::BytesRead(Ok(b"hi".to_vec()))),
            (Action::RemoveFile(local), Event::FileRemoved),
        ],
    );
    assert_eq!(out.unwrap(), "aGk=");
}

#[test]
fn pull_as_text_needs_utf8() {
    let args = object(vec![("remote_path", text("/sdcard/")), ("as_base64", JsonValue::Bool(false))]);
    let p = plan("adb_pull", args).unwrap();
    match &p.collect {
        Collect::Download(local, false) => assert_eq!(local, "/tmp/sdcard"),
        _ => panic!("download"),
    }
    let args = object(vec![("remote_path", text("/")), ("as_base64", JsonValue::Bool(false))]);
    let p = plan("adb_pull", args).unwrap();
    let local = "/tmp/pulled_file".to_string();
    let out = drive(
        p,
        vec![
            (adb(&["pull", "/", "/tmp/pulled_file"]), ok_exit("")),
            (Action::ReadBytes(local.clone()), Event::BytesRead(Ok(vec![0xff, 0xfe]))),
            (Action::RemoveFile(local), Event::FileRemoved),
        ],
    );
    assert_eq!(out.unwrap_err().message(), "File is not valid UTF-8 text");
}

#[test]
fn pull_reports_a_failed_read_without_removing() {
    let p = plan("adb_pull", object(vec![("remote_path", text("/a/b.txt"))])).unwrap();
    let out = drive(
        p,
        vec![
            (adb(&["pull", "/a/b.txt", "/tmp/b.txt"]), ok_exit("")),
            (
                Action::ReadBytes("/tmp/b.txt".to_string()),
                Event::BytesRead(Err("No such file or directory (os error 2)".to_string())),
            ),
        ],
    );
    assert_eq!(out.unwrap_err().message(), "No such file or directory (os error 2)");
}

#[test]
fn adb_failure_carries_stderr() {
    let p = plan("adb_shell", object(vec![("command", text("id"))])).unwrap();
    let failed = Event::AdbExited {
        success: false,
        stdout: Vec::new(),
        stderr: b"error: no devices/emulators found\n".to_vec(),
    };
    let out = drive(p, vec![(adb(&["shell", "id"]), failed)]);
    assert_eq!(out.unwrap_err().message(), "ADB command failed: error: no devices/emulators found\n");
}

#[test]
fn adb_that_cannot_start() {
    let p = plan("adb_shell", object(vec![("command", text("id"))])).unwrap();
    let out = drive(p, vec![(adb(&["shell", "id"]), Event::AdbNotStarted)]);
    assert_eq!(out.unwrap_err().message(), "Failed to execute ADB command");
}

#[test]
fn push_stages_decodes_and_cleans_up() {
    let args = object(vec![("file_base64", text("aGVsbG8=")), ("remote_path", text("/sdcard/file.txt"))]);
    let p = plan("adb_push", args).unwrap();
    match &p.prepare {
        Prepare::StageUpload(path, bytes) => {
            assert_eq!(path, "/tmp/push_temp");
            assert_eq!(bytes, b"hello");
        }
        _ => panic!("staged upload"),
    }
    let staged = "/tmp/push_temp".to_string();
    let failed = Event::AdbExited { success: false, stdout: Vec::new(), stderr: b"denied".to_vec() };
    let out = drive(
        p,
        vec![
            (Action::WriteBytes(staged.clone(), b"hello".to_vec()), Event::BytesWritten(Ok(()))),
            (adb(&["push", "/tmp/push_temp", "/sdcard/file.txt"]), failed),
            (Action::RemoveFile(staged), Event::FileRemoved),
        ],
    );
    assert_eq!(out.unwrap_err().message(), "ADB command failed: denied");
}

#[test]
fn push_reports_a_failed_write() {
    let args = object(vec![("file_base64", text("")), ("remote_path", text("/sdcard/f"))]);
    let p = plan("adb_push", args).unwrap();
    let out = drive(
        p,
        vec![(Action::WriteBytes("/tmp/push_temp".to_string(), Vec::new()), Event::BytesWritten(Err("Permission denied (os error 13)".to_string())))],
    );
    assert_eq!(out.unwrap_err().message(), "Permission denied (os error 13)");
}

#[test]
fn push_requires_content_then_path() {
    assert_eq!(failure(plan("adb_push", object(vec![]))), "Missing 'file_base64' argument");
    let only_content = object(vec![("file_base64", text("aGk="))]);
    assert_eq!(failure(plan("adb_push", only_content)), "Missing 'remote_path' argument");
}

#[test]
fn push_refuses_invalid_base64() {
    let try_push = |content: &str| {
        failure(plan(
            "adb_push",
            object(vec![("file_base64", text(content)), ("remote_path", text("/sdcard/f"))]),
        ))
    };
    assert_eq!(try_push("!!!!"), "Invalid symbol 33, offset 0.");
    assert_eq!(try_push("YQ"), "Invalid padding");
    assert_eq!(try_push("YR=="), "Invalid last symbol 82, offset 1.");
    assert_eq!(try_push("aGVsbG8"), "Invalid padding");
}

#[test]
fn base64_errors_are_worded_as_the_crate_words_them() {
    let cases = [
        Base64Error::InvalidByte(3, 64),
        Base64Error::InvalidLength(5),
        Base64Error::InvalidLastSymbol(2, 82),
        Base64Error::InvalidPadding,
    ];
    let originals = [
        base64::DecodeError::InvalidByte(3, 64),
        base64::DecodeError::InvalidLength(5),
        base64::DecodeError::InvalidLastSymbol(2, 82),
        base64::DecodeError::InvalidPadding,
    ];
    for (e, o) in cases.into_iter().zip(originals) {
        assert_eq!(ToolError::InvalidBase64(e).message(), o.to_string());
    }
}

#[test]
fn activity_and_package_manager_lines() {
    let am = object(vec![
        ("am_command", text("start")),
        ("am_args", text("-a android.intent.action.VIEW -d http://example.com")),
    ]);
    let p = plan("adb_activity_manager", am).unwrap();
    assert_eq!(
        commands(&p),
        vec![vec!["shell", "am start -a android.intent.action.VIEW -d http://example.com"]]
    );
    let pm = object(vec![("pm_command", text("list")), ("device", text("d1"))]);
    let p = plan("adb_package_manager", pm).unwrap();
    assert_eq!(commands(&p), vec![vec!["-s", "d1", "shell", "pm list"]]);
    assert_eq!(failure(plan("adb_package_manager", object(vec![]))), "Missing 'pm_command' argument");
    assert_eq!(failure(plan("adb_activity_manager", object(vec![]))), "Missing 'am_command' argument");
}

#[test]
fn inspect_ui_dumps_then_pulls() {
    let args = object(vec![("as_base64", JsonValue::Bool(true))]);
    let p = plan("adb_inspect_ui", args).unwrap();
    let local = "/tmp/window_dump.xml".to_string();
    let out = drive(
        p,
        vec![
            (adb(&["shell", "uiautomator dump /sdcard/window_dump.xml"]), ok_exit("dumped")),
            (adb(&["pull", "/sdcard/window_dump.xml", "/tmp/window_dump.xml"]), ok_exit("")),
            (Action::ReadText(local.clone()), Event::TextRead(Ok("<x/>".to_string()))),
            (Action::RemoveFile(local), Event::FileRemoved),
        ],
    );
    assert_eq!(out.unwrap(), "PHgvPg==");
}

#[test]
fn inspect_ui_as_text_stops_when_the_dump_fails() {
    let p = plan("adb_inspect_ui", object(vec![])).unwrap();
    let failed = Event::AdbExited { success: false, stdout: Vec::new(), stderr: b"ERROR".to_vec() };
    let out = drive(p, vec![(adb(&["shell", "uiautomator dump /sdcard/window_dump.xml"]), failed)]);
    assert_eq!(out.unwrap_err().message(), "ADB command failed: ERROR");
}

#[test]
fn screenshot_without_base64_only_confirms() {
    let p = plan("adb_screenshot", object(vec![("device", text("d2"))])).unwrap();
    let out = drive(
        p,
        vec![
            (adb(&["-s", "d2", "shell", "screencap -p /sdcard/screen.png"]), ok_exit("")),
            (adb(&["-s", "d2", "pull", "/sdcard/screen.png", "/tmp/screen.png"]), ok_exit("")),
            (Action::RemoveFile("/tmp/screen.png".to_string()), Event::FileRemoved),
        ],
    );
    assert_eq!(out.unwrap(), "Screenshot captured successfully");
}

#[test]
fn screenshot_as_base64() {
    let p = plan("adb_screenshot", object(vec![("as_base64", JsonValue::Bool(true))])).unwrap();
    let local = "/tmp/screen.png".to_string();
    let out = drive(
        p,
        vec![
            (adb(&["shell", "screencap -p /sdcard/screen.png"]), ok_exit("")),
            (adb(&["pull", "/sdcard/screen.png", "/tmp/screen.png"]), ok_exit("")),
            (Action::ReadBytes(local.clone()), Event::BytesRead(Ok(vec![0x89, 0x50, 0x4e, 0x47]))),
            (Action::RemoveFile(local), Event::FileRemoved),
        ],
    );
    assert_eq!(out.unwrap(), "iVBORw==");
}

#[test]
fn runs_refuse_answers_they_did_not_ask_for() {
    let p = plan("adb_devices", object(vec![])).unwrap();
    match ToolRun::start(p) {
        Step::Perform(run, _) => {
            assert!(!run.accepts(&Event::FileRemoved));
            assert!(run.accepts(&Event::AdbNotStarted));
        }
        Step::Finish(_) => panic!("the run has a command"),
    }
}

#[test]
fn pull_as_text_returns_the_text() {
    let args = object(vec![("remote_path", text("/sdcard/notes.txt")), ("as_base64", JsonValue::Bool(false))]);
    let p = plan("adb_pull", args).unwrap();
    let local = "/tmp/notes.txt".to_string();
    let out = drive(
        p,
        vec![
            (adb(&["pull", "/sdcard/notes.txt", "/tmp/notes.txt"]), ok_exit("")),
            (Action::ReadBytes(local.clone()), Event::BytesRead(Ok("héllo\n".as_bytes().to_vec()))),
            (Action::RemoveFile(local), Event::FileRemoved),
        ],
    );
    assert_eq!(out.unwrap(), "héllo\n");
}

#[test]
fn pushing_what_pull_returned_uploads_the_same_bytes() {
    let content: Vec<u8> = (0u8..=255).collect();
    let p = plan("adb_pull", object(vec![("remote_path", text("/sdcard/blob"))])).unwrap();
    let local = "/tmp/blob".to_string();
    let pulled = drive(
        p,
        vec![
            (adb(&["pull", "/sdcard/blob", "/tmp/blob"]), ok_exit("")),
            (Action::ReadBytes(local.clone()), Event::BytesRead(Ok(content.clone()))),
            (Action::RemoveFile(local), Event::FileRemoved),
        ],
    )
    .unwrap();
    let args = object(vec![("file_base64", text(&pulled)), ("remote_path", text("/sdcard/copy"))]);
    match plan("adb_push", args).unwrap().prepare {
        Prepare::StageUpload(_, bytes) => assert_eq!(bytes, content),
        _ => panic!("staged upload"),
    }
}

#[test]
fn adb_output_that_is_not_utf8_is_read_lossily() {
    let p = plan("adb_shell", object(vec![("command", text("cat x"))])).unwrap();
    let exit = Event::AdbExited { success: true, stdout: vec![b'a', 0xff, b'b'], stderr: Vec::new() };
    let out = drive(p, vec![(adb(&["shell", "cat x"]), exit)]);
    assert_eq!(out.unwrap(), "a\u{fffd}b");
}

#[test]
fn pulling_what_push_uploaded_returns_the_same_text() {
    let pushed = "SGVsbG8sIGRldmljZSE=";
    let args = object(vec![("file_base64", text(pushed)), ("remote_path", text("/sdcard/hello.txt"))]);
    let staged = match plan("adb_push", args).unwrap().prepare {
        Prepare::StageUpload(_, bytes) => bytes,
        _ => panic!("staged upload"),
    };
    let p = plan("adb_pull", object(vec![("remote_path", text("/sdcard/hello.txt"))])).unwrap();
    let local = "/tmp/hello.txt".to_string();
    let out = drive(
        p,
        vec![
            (adb(&["pull", "/sdcard/hello.txt", "/tmp/hello.txt"]), ok_exit("1 file pulled")),
            (Action::ReadBytes(local.clone()), Event::BytesRead(Ok(staged))),
            (Action::RemoveFile(local), Event::FileRemoved),
        ],
    );
    assert_eq!(out.unwrap(), pushed);
}

#[test]
fn local_files_follow_windows_paths() {
    let server = AdbMcpServer::new();
    let temp = "C:\\Users\\me\\AppData\\Local\\Temp\\";
    let p = server.execute_tool("adb_screenshot", &object(vec![]), temp, PathStyle::Windows).unwrap();
    assert_eq!(
        commands(&p)[1],
        vec!["pull", "/sdcard/screen.png", "C:\\Users\\me\\AppData\\Local\\Temp\\screen.png"]
    );
    let args = object(vec![("remote_path", text("/sdcard/logs\\today.txt"))]);
    let p = server.execute_tool("adb_pull", &args, "C:\\Temp", PathStyle::Windows).unwrap();
    assert_eq!(commands(&p), vec![vec!["pull", "/sdcard/logs\\today.txt", "C:\\Temp\\today.txt"]]);
    let args = object(vec![("file_base64", text("aGk=")), ("remote_path", text("/sdcard/a"))]);
    match server.execute_tool("adb_push", &args, "C:\\Temp", PathStyle::Windows).unwrap().prepare {
        Prepare::StageUpload(staged, bytes) => {
            assert_eq!(staged, "C:\\Temp\\push_temp");
            assert_eq!(bytes, b"hi".to_vec());
        }
        _ => panic!("staged upload"),
    }
}
