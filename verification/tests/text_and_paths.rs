use rs_adb_mcp::json::{JsonNumber, JsonValue};
use rs_adb_mcp::path::{file_name_of, join_path, PathStyle};
use rs_adb_mcp::text::decimal_text;

#[test]
fn decimal_text_writes_plain_decimal() {
    assert_eq!(decimal_text(0), "0");
    assert_eq!(decimal_text(7), "7");
    assert_eq!(decimal_text(50), "50");
    assert_eq!(decimal_text(1000), "1000");
    assert_eq!(decimal_text(u64::MAX), "18446744073709551615");
}

#[test]
fn decimal_text_reads_back() {
    for n in [0u64, 1, 9, 10, 99, 100, 12345, 4294967296, u64::MAX] {
        assert_eq!(decimal_text(n).parse::<u64>().unwrap(), n);
    }
}

#[test]
fn file_name_takes_the_last_component() {
    assert_eq!(file_name_of("/sdcard/screenshot.png", PathStyle::Unix).as_deref(), Some("screenshot.png"));
    assert_eq!(file_name_of("notes.txt", PathStyle::Unix).as_deref(), Some("notes.txt"));
    assert_eq!(file_name_of("/sdcard/dir/", PathStyle::Unix).as_deref(), Some("dir"));
    assert_eq!(file_name_of("/sdcard/dir//", PathStyle::Unix).as_deref(), Some("dir"));
    assert_eq!(file_name_of("a/.", PathStyle::Unix).as_deref(), Some("a"));
    assert_eq!(file_name_of("./a", PathStyle::Unix).as_deref(), Some("a"));
    assert_eq!(file_name_of("../a", PathStyle::Unix).as_deref(), Some("a"));
}

#[test]
fn file_name_of_paths_without_one() {
    assert_eq!(file_name_of("", PathStyle::Unix), None);
    assert_eq!(file_name_of("/", PathStyle::Unix), None);
    assert_eq!(file_name_of(".", PathStyle::Unix), None);
    assert_eq!(file_name_of("..", PathStyle::Unix), None);
    assert_eq!(file_name_of("a/..", PathStyle::Unix), None);
    assert_eq!(file_name_of("/sdcard/..", PathStyle::Unix), None);
}

#[test]
fn file_name_agrees_with_std() {
    for p in [
        "/sdcard/a.png", "a/b/c", "a/b/", "a//b", "/", ".", "..", "x/..", "./", "a/./", "", "/.a", "..a",
    ] {
        let std_name = std::path::Path::new(p).file_name().and_then(|n| n.to_str());
        assert_eq!(file_name_of(p, PathStyle::Unix).as_deref(), std_name, "path {:?}", p);
    }
}

#[test]
fn join_path_places_a_name_under_a_directory() {
    assert_eq!(join_path("/tmp", "screen.png", PathStyle::Unix), "/tmp/screen.png");
    assert_eq!(join_path("/tmp/", "screen.png", PathStyle::Unix), "/tmp/screen.png");
    assert_eq!(join_path("", "screen.png", PathStyle::Unix), "screen.png");
    assert_eq!(join_path("/tmp", "/abs", PathStyle::Unix), "/abs");
}

#[test]
fn join_path_agrees_with_std() {
    for (d, n) in [("/tmp", "x"), ("/tmp/", "x"), ("", "x"), ("rel", "x"), ("/tmp", "/y")] {
        let joined = std::path::Path::new(d).join(n);
        assert_eq!(join_path(d, n, PathStyle::Unix), joined.to_str().unwrap());
    }
}

#[test]
fn windows_file_name_splits_at_either_separator() {
    let w = PathStyle::Windows;
    assert_eq!(file_name_of("a\\b", w).as_deref(), Some("b"));
    assert_eq!(file_name_of("C:\\Users\\me\\notes.txt", w).as_deref(), Some("notes.txt"));
    assert_eq!(file_name_of("/sdcard/dir\\", w).as_deref(), Some("dir"));
    assert_eq!(file_name_of("C:foo", w).as_deref(), Some("foo"));
    assert_eq!(file_name_of("C:", w), None);
    assert_eq!(file_name_of("C:\\", w), None);
    assert_eq!(file_name_of("a\\..", w), None);
    assert_eq!(file_name_of("a\\b", PathStyle::Unix).as_deref(), Some("a\\b"));
}

#[test]
fn windows_join_puts_a_backslash_between() {
    let w = PathStyle::Windows;
    assert_eq!(join_path("C:\\Temp\\", "screen.png", w), "C:\\Temp\\screen.png");
    assert_eq!(join_path("C:\\Temp", "screen.png", w), "C:\\Temp\\screen.png");
    assert_eq!(join_path("C:/Temp/", "x", w), "C:/Temp/x");
    assert_eq!(join_path("C:", "x", w), "C:x");
    assert_eq!(join_path("", "x", w), "x");
    assert_eq!(join_path("C:\\T", "D:x", w), "D:x");
    assert_eq!(join_path("C:\\T", "\\x", w), "C:\\x");
    assert_eq!(join_path("T", "/x", w), "/x");
}

fn object(members: Vec<(&str, JsonValue)>) -> JsonValue {
    JsonValue::Object(members.into_iter().map(|(k, v)| (k.to_string(), v)).collect())
}

#[test]
fn json_accessors_read_members() {
    let v = object(vec![
        ("command", JsonValue::Str("ls".to_string())),
        ("lines", JsonValue::Number(JsonNumber::PosInt(7))),
        ("neg", JsonValue::Number(JsonNumber::NegInt(-3))),
        ("flag", JsonValue::Bool(true)),
    ]);
    assert_eq!(v.str_member("command"), Some("ls"));
    assert_eq!(v.str_member("lines"), None);
    assert_eq!(v.get("lines").and_then(|x| x.as_u64()), Some(7));
    assert_eq!(v.get("neg").and_then(|x| x.as_u64()), None);
    assert_eq!(v.get("flag").and_then(|x| x.as_bool()), Some(true));
    assert!(v.get("missing").is_none());
    let not_object = JsonValue::Array(vec![JsonValue::Null]);
    assert!(not_object.get("command").is_none());
}

#[test]
fn json_take_moves_a_member_out() {
    let v = object(vec![("a", JsonValue::Bool(false)), ("b", JsonValue::Null)]);
    match v.take("a") {
        Some(JsonValue::Bool(false)) => {}
        _ => panic!("member a"),
    }
    let v = object(vec![("a", JsonValue::Bool(false))]);
    assert!(v.take("z").is_none());
}
