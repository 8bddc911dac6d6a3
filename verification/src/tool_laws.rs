use vstd::prelude::*;
use vstd::utf8::{decode_utf8, encode_utf8, valid_utf8};

use crate::adb::device_options;
use crate::codec::{base64_encoding, encodable_len, lossy_text};
use crate::errors::Failure;
use crate::json::{json_get, str_member, Json, Num};
use crate::laws::{lemma_catalogue_names, lemma_catalogue_names_distinct};
use crate::path::{file_name, join, PathStyle};
use crate::server::{device_of, tool_plan};
use crate::session::{transition, Act, Coll, Ev, PlanModel, Prep, RunModel, Stage, StepModel};
use crate::text::{decimal, digits_value, lemma_decimal_reads_back};
use crate::tools::catalogue;

verus! {

/// Whether the boolean member `key` of the arguments is `true`; an absent
/// member, or one that is not a boolean, counts as `false`.
pub open spec fn is_true(args: Json, key: Seq<char>) -> bool {
    json_get(args, key) == Some(Json::Bool(true))
}

/// A plan of one `adb` command on the named device, answered by what the
/// command printed.
pub open spec fn one_command(args: Json, words: Seq<Seq<char>>) -> PlanModel {
    PlanModel {
        prepare: Prep::Nothing,
        commands: seq![device_options(device_of(args)) + words],
        collect: Coll::Output,
        cleanup: None,
    }
}

/// `adb_package_manager` runs one shell line on the named device: `pm`, a
/// space and the command, then, when `pm_args` is given as text, a space
/// and `pm_args` exactly as given; no other member enters the line.
pub proof fn law_package_manager_line(args: Json, temp: Seq<char>, style: PathStyle, command: Seq<char>)
    requires
        str_member(args, "pm_command"@) == Some(command),
    ensures
        tool_plan("adb_package_manager"@, args, temp, style) == Ok::<PlanModel, Failure>(
            one_command(
                args,
                seq![
                    "shell"@,
                    match str_member(args, "pm_args"@) {
                        Some(a) => "pm "@ + command + " "@ + a,
                        None => "pm "@ + command,
                    },
                ],
            ),
        ),
{
    lemma_catalogue_names();
    lemma_catalogue_names_distinct();
    assert(catalogue()[7].name != catalogue()[0].name);
    assert(catalogue()[7].name != catalogue()[1].name);
    assert(catalogue()[7].name != catalogue()[2].name);
    assert(catalogue()[7].name != catalogue()[3].name);
    assert(catalogue()[7].name != catalogue()[4].name);
    assert(catalogue()[7].name != catalogue()[5].name);
    assert(catalogue()[7].name != catalogue()[6].name);
    reveal_strlit("pm");
    reveal_strlit(" ");
    reveal_strlit("pm ");
    assert("pm"@ + " "@ =~= "pm "@);
    assert(("pm"@ + " "@) + command =~= "pm "@ + command);
    let line = match str_member(args, "pm_args"@) {
        Some(a) => "pm "@ + command + " "@ + a,
        None => "pm "@ + command,
    };
    assert(crate::server::manager_line("pm"@, command, str_member(args, "pm_args"@)) == line);
    assert(crate::server::on_device(args, seq!["shell"@, line]) == device_options(device_of(args))
        + seq!["shell"@, line]);
    assert(crate::server::manager_plan(args, "pm"@, "pm_command"@, "pm_args"@) == Ok::<PlanModel, Failure>(
        one_command(args, seq!["shell"@, line]),
    ));
    assert(crate::server::package_manager_plan(args) == Ok::<PlanModel, Failure>(
        one_command(args, seq!["shell"@, line]),
    ));
    assert(tool_plan("adb_package_manager"@, args, temp, style) == crate::server::package_manager_plan(args));
    assert(seq!["shell"@, line] =~= seq![
        "shell"@,
        match str_member(args, "pm_args"@) {
            Some(a) => "pm "@ + command + " "@ + a,
            None => "pm "@ + command,
        },
    ]);
}

/// `adb_activity_manager` runs one shell line on the named device: `am`, a
/// space and the command, then, when `am_args` is given as text, a space
/// and `am_args` exactly as given; no other member enters the line.
pub proof fn law_activity_manager_line(args: Json, temp: Seq<char>, style: PathStyle, command: Seq<char>)
    requires
        str_member(args, "am_command"@) == Some(command),
    ensures
        tool_plan("adb_activity_manager"@, args, temp, style) == Ok::<PlanModel, Failure>(
            one_command(
                args,
                seq![
                    "shell"@,
                    match str_member(args, "am_args"@) {
                        Some(a) => "am "@ + command + " "@ + a,
                        None => "am "@ + command,
                    },
                ],
            ),
        ),
{
    lemma_catalogue_names();
    lemma_catalogue_names_distinct();
    assert(catalogue()[6].name != catalogue()[0].name);
    assert(catalogue()[6].name != catalogue()[1].name);
    assert(catalogue()[6].name != catalogue()[2].name);
    assert(catalogue()[6].name != catalogue()[3].name);
    assert(catalogue()[6].name != catalogue()[4].name);
    assert(catalogue()[6].name != catalogue()[5].name);
    reveal_strlit("am");
    reveal_strlit(" ");
    reveal_strlit("am ");
    assert("am"@ + " "@ =~= "am "@);
    assert(("am"@ + " "@) + command =~= "am "@ + command);
    let line = match str_member(args, "am_args"@) {
        Some(a) => "am "@ + command + " "@ + a,
        None => "am "@ + command,
    };
    assert(crate::server::manager_line("am"@, command, str_member(args, "am_args"@)) == line);
    assert(crate::server::on_device(args, seq!["shell"@, line]) == device_options(device_of(args))
        + seq!["shell"@, line]);
    assert(crate::server::manager_plan(args, "am"@, "am_command"@, "am_args"@) == Ok::<PlanModel, Failure>(
        one_command(args, seq!["shell"@, line]),
    ));
    assert(crate::server::activity_manager_plan(args) == Ok::<PlanModel, Failure>(
        one_command(args, seq!["shell"@, line]),
    ));
    assert(tool_plan("adb_activity_manager"@, args, temp, style) == crate::server::activity_manager_plan(args));
    assert(seq!["shell"@, line] =~= seq![
        "shell"@,
        match str_member(args, "am_args"@) {
            Some(a) => "am "@ + command + " "@ + a,
            None => "am "@ + command,
        },
    ]);
}

/// `adb_logcat` asks `logcat -d -t` for exactly the number of lines that
/// `lines` gives, whether or not a filter is given; the filter, when given
/// as text, follows as `-s <filter>`.  The number is written in decimal
/// and reads back as `n`.
pub proof fn law_logcat_asks_for_the_given_lines(args: Json, temp: Seq<char>, style: PathStyle, n: u64)
    requires
        json_get(args, "lines"@) == Some(Json::Number(Num::PosInt(n))),
    ensures
        tool_plan("adb_logcat"@, args, temp, style) == Ok::<PlanModel, Failure>(
            one_command(
                args,
                seq!["logcat"@, "-d"@, "-t"@, decimal(n as nat)] + match str_member(args, "filter"@) {
                    Some(f) => seq!["-s"@, f],
                    None => Seq::empty(),
                },
            ),
        ),
        digits_value(decimal(n as nat)) == n,
{
    lemma_catalogue_names();
    lemma_catalogue_names_distinct();
    lemma_decimal_reads_back(n as nat);
    assert(catalogue()[3].name != catalogue()[0].name);
    assert(catalogue()[3].name != catalogue()[1].name);
    assert(catalogue()[3].name != catalogue()[2].name);
    let words = seq!["logcat"@, "-d"@, "-t"@, decimal(n as nat)] + match str_member(args, "filter"@) {
        Some(f) => seq!["-s"@, f],
        None => Seq::empty(),
    };
    assert(device_options(device_of(args)) + seq!["logcat"@, "-d"@, "-t"@, decimal(n as nat)] + match str_member(
        args,
        "filter"@,
    ) {
        Some(f) => seq!["-s"@, f],
        None => Seq::empty(),
    } =~= device_options(device_of(args)) + words);
}

/// When the last command of a plan that answers with its output succeeds,
/// the answer is the whole of what the command printed, decoded as text:
/// nothing is cut or added, and the call ends there, after removing its
/// staged file if it has one.
pub proof fn law_output_is_answered_whole(plan: PlanModel, i: nat, out: Seq<u8>, err: Seq<u8>)
    requires
        plan.collect == Coll::Output,
        i + 1 == plan.commands.len(),
    ensures
        transition(RunModel { plan, stage: Stage::Running(i) }, Ev::AdbExited(true, out, err))
            == match plan.cleanup {
            None => StepModel::Finish(Ok(lossy_text(out))),
            Some(t) => StepModel::Perform(
                RunModel { plan, stage: Stage::Cleaning(Ok(lossy_text(out))) },
                Act::RemoveFile(t),
            ),
        },
{
}

/// `adb_shell` runs the command on the named device and, when `adb`
/// succeeds, answers with the whole of what it printed.
pub proof fn law_shell_answers_its_whole_output(
    args: Json,
    temp: Seq<char>,
    style: PathStyle,
    command: Seq<char>,
    out: Seq<u8>,
    err: Seq<u8>,
)
    requires
        str_member(args, "command"@) == Some(command),
    ensures
        tool_plan("adb_shell"@, args, temp, style) == Ok::<PlanModel, Failure>(
            one_command(args, seq!["shell"@, command]),
        ),
        transition(
            RunModel { plan: one_command(args, seq!["shell"@, command]), stage: Stage::Running(0) },
            Ev::AdbExited(true, out, err),
        ) == StepModel::Finish(Ok::<Seq<char>, Failure>(lossy_text(out))),
{
    lemma_catalogue_names();
    lemma_catalogue_names_distinct();
    assert(catalogue()[1].name != catalogue()[0].name);
}

/// `adb_inspect_ui` dumps the UI hierarchy on the device, pulls the dump
/// under the temporary directory, and answers with the text it reads
/// there: exactly that text, unless `as_base64` is `true`, and then the
/// base64 of its UTF-8 bytes.  The local copy is removed before the answer.
pub proof fn law_inspect_ui_answers_the_dump(args: Json, temp: Seq<char>, style: PathStyle, s: Seq<char>)
    ensures
        ({
            let local = join(style, temp, "window_dump.xml"@);
            let dev = device_options(device_of(args));
            let enc = is_true(args, "as_base64"@);
            let plan = PlanModel {
                prepare: Prep::Nothing,
                commands: seq![
                    dev + seq!["shell"@, "uiautomator dump /sdcard/window_dump.xml"@],
                    dev + seq!["pull"@, "/sdcard/window_dump.xml"@, local],
                ],
                collect: Coll::Document(local, enc),
                cleanup: None,
            };
            &&& tool_plan("adb_inspect_ui"@, args, temp, style) == Ok::<PlanModel, Failure>(plan)
            &&& !enc ==> transition(RunModel { plan, stage: Stage::Collecting }, Ev::TextRead(Ok(s)))
                == StepModel::Perform(
                RunModel { plan, stage: Stage::Cleaning(Ok(s)) },
                Act::RemoveFile(local),
            )
            &&& enc ==> transition(RunModel { plan, stage: Stage::Collecting }, Ev::TextRead(Ok(s)))
                == StepModel::Perform(
                RunModel { plan, stage: Stage::Cleaning(Ok(base64_encoding(encode_utf8(s)))) },
                Act::RemoveFile(local),
            )
        }),
{
    lemma_catalogue_names();
    lemma_catalogue_names_distinct();
    assert(catalogue()[8].name != catalogue()[0].name);
    assert(catalogue()[8].name != catalogue()[1].name);
    assert(catalogue()[8].name != catalogue()[2].name);
    assert(catalogue()[8].name != catalogue()[3].name);
    assert(catalogue()[8].name != catalogue()[4].name);
    assert(catalogue()[8].name != catalogue()[5].name);
    assert(catalogue()[8].name != catalogue()[6].name);
    assert(catalogue()[8].name != catalogue()[7].name);
    reveal_strlit("uiautomator dump ");
    reveal_strlit("/sdcard/window_dump.xml");
    reveal_strlit("uiautomator dump /sdcard/window_dump.xml");
    assert("uiautomator dump "@ + "/sdcard/window_dump.xml"@ =~= "uiautomator dump /sdcard/window_dump.xml"@);
}

/// `adb_screenshot` captures the screen on the device and pulls the picture
/// under the temporary directory.  Only when `as_base64` is `true` is the
/// picture read and answered as base64; otherwise the local copy is removed
/// unread and the call answers "Screenshot captured successfully".
pub proof fn law_screenshot_returns_the_picture_only_when_asked(
    args: Json,
    temp: Seq<char>,
    style: PathStyle,
    out: Seq<u8>,
    err: Seq<u8>,
    bytes: Seq<u8>,
)
    ensures
        ({
            let local = join(style, temp, "screen.png"@);
            let dev = device_options(device_of(args));
            let enc = is_true(args, "as_base64"@);
            let plan = PlanModel {
                prepare: Prep::Nothing,
                commands: seq![
                    dev + seq!["shell"@, "screencap -p /sdcard/screen.png"@],
                    dev + seq!["pull"@, "/sdcard/screen.png"@, local],
                ],
                collect: if enc {
                    Coll::Download(local, true)
                } else {
                    Coll::Discard(local)
                },
                cleanup: None,
            };
            &&& tool_plan("adb_screenshot"@, args, temp, style) == Ok::<PlanModel, Failure>(plan)
            &&& !enc ==> transition(RunModel { plan, stage: Stage::Running(1) }, Ev::AdbExited(true, out, err))
                == StepModel::Perform(
                RunModel { plan, stage: Stage::Cleaning(Ok("Screenshot captured successfully"@)) },
                Act::RemoveFile(local),
            )
            &&& enc ==> transition(RunModel { plan, stage: Stage::Running(1) }, Ev::AdbExited(true, out, err))
                == StepModel::Perform(RunModel { plan, stage: Stage::Collecting }, Act::ReadBytes(local))
            &&& enc && encodable_len(bytes.len() as int) ==> transition(
                RunModel { plan, stage: Stage::Collecting },
                Ev::BytesRead(Ok(bytes)),
            ) == StepModel::Perform(
                RunModel { plan, stage: Stage::Cleaning(Ok(base64_encoding(bytes))) },
                Act::RemoveFile(local),
            )
        }),
{
    lemma_catalogue_names();
    lemma_catalogue_names_distinct();
    assert(catalogue()[9].name != catalogue()[0].name);
    assert(catalogue()[9].name != catalogue()[1].name);
    assert(catalogue()[9].name != catalogue()[2].name);
    assert(catalogue()[9].name != catalogue()[3].name);
    assert(catalogue()[9].name != catalogue()[4].name);
    assert(catalogue()[9].name != catalogue()[5].name);
    assert(catalogue()[9].name != catalogue()[6].name);
    assert(catalogue()[9].name != catalogue()[7].name);
    assert(catalogue()[9].name != catalogue()[8].name);
    reveal_strlit("screencap -p ");
    reveal_strlit("/sdcard/screen.png");
    reveal_strlit("screencap -p /sdcard/screen.png");
    assert("screencap -p "@ + "/sdcard/screen.png"@ =~= "screencap -p /sdcard/screen.png"@);
}

/// Whether the boolean member `key` of the arguments is `false`; an absent
/// member, or one that is not a boolean, counts as `true`.
pub open spec fn is_false(args: Json, key: Seq<char>) -> bool {
    json_get(args, key) == Some(Json::Bool(false))
}

/// A command that fails answers with what it wrote to standard error, and
/// one that cannot be started answers that `adb` is unavailable; no later
/// command runs, and a staged file is still removed first.
pub proof fn law_failed_command_stops_the_call(plan: PlanModel, i: nat, ev: Ev)
    requires
        i < plan.commands.len(),
        ev matches Ev::AdbExited(false, _, _) || ev is AdbNotStarted,
    ensures
        ({
            let f = match ev {
                Ev::AdbExited(_, _, err) => Failure::AdbFailed(lossy_text(err)),
                _ => Failure::AdbUnavailable,
            };
            transition(RunModel { plan, stage: Stage::Running(i) }, ev) == match plan.cleanup {
                None => StepModel::Finish(Err(f)),
                Some(t) => StepModel::Perform(
                    RunModel { plan, stage: Stage::Cleaning(Err(f)) },
                    Act::RemoveFile(t),
                ),
            }
        }),
{
}

/// A command that succeeds, and is not the last, is followed by the next
/// command of the plan.
pub proof fn law_commands_run_in_order(plan: PlanModel, i: nat, out: Seq<u8>, err: Seq<u8>)
    requires
        i + 1 < plan.commands.len(),
    ensures
        transition(RunModel { plan, stage: Stage::Running(i) }, Ev::AdbExited(true, out, err))
            == StepModel::Perform(
            RunModel { plan, stage: Stage::Running((i + 1) as nat) },
            Act::RunAdb(plan.commands[i + 1 as int]),
        ),
{
}

/// `adb_devices` runs `devices -l` on no device in particular, whatever the
/// arguments, and answers with its whole output.
pub proof fn law_devices_lists_every_device(args: Json, temp: Seq<char>, style: PathStyle)
    ensures
        tool_plan("adb_devices"@, args, temp, style) == Ok::<PlanModel, Failure>(
            one_command(Json::Null, seq!["devices"@, "-l"@]),
        ),
{
    assert(device_options(device_of(Json::Null)) + seq!["devices"@, "-l"@] =~= seq!["devices"@, "-l"@]);
}

/// `adb_install` first checks that the APK exists locally: when it does
/// not, the call fails naming it and `adb` never runs; when it does,
/// `install <apk>` runs on the named device and its output is the answer.
pub proof fn law_install_needs_the_apk(args: Json, temp: Seq<char>, style: PathStyle, apk: Seq<char>)
    requires
        str_member(args, "apk_path"@) == Some(apk),
    ensures
        ({
            let plan = PlanModel {
                prepare: Prep::RequireFile(apk),
                commands: seq![device_options(device_of(args)) + seq!["install"@, apk]],
                collect: Coll::Output,
                cleanup: None,
            };
            &&& tool_plan("adb_install"@, args, temp, style) == Ok::<PlanModel, Failure>(plan)
            &&& transition(RunModel { plan, stage: Stage::Preparing }, Ev::FileChecked(false))
                == StepModel::Finish(Err::<Seq<char>, Failure>(Failure::ApkNotFound(apk)))
            &&& transition(RunModel { plan, stage: Stage::Preparing }, Ev::FileChecked(true))
                == StepModel::Perform(
                RunModel { plan, stage: Stage::Running(0) },
                Act::RunAdb(device_options(device_of(args)) + seq!["install"@, apk]),
            )
        }),
{
    lemma_catalogue_names();
    lemma_catalogue_names_distinct();
    assert(catalogue()[2].name != catalogue()[0].name);
    assert(catalogue()[2].name != catalogue()[1].name);
}

/// `adb_pull` pulls the remote file to the temporary directory, under the
/// remote file's name (`pulled_file` when it has none), and answers with
/// the bytes it reads there: as base64 unless `as_base64` is `false`, and
/// then as UTF-8 text, refused when the bytes are not UTF-8.  The local
/// copy is removed before the answer.
pub proof fn law_pull_answers_the_file(
    args: Json,
    temp: Seq<char>,
    style: PathStyle,
    remote: Seq<char>,
    bytes: Seq<u8>,
)
    requires
        str_member(args, "remote_path"@) == Some(remote),
    ensures
        ({
            let local = join(
                style,
                temp,
                match file_name(style, remote) {
                    Some(n) => n,
                    None => "pulled_file"@,
                },
            );
            let enc = !is_false(args, "as_base64"@);
            let plan = PlanModel {
                prepare: Prep::Nothing,
                commands: seq![device_options(device_of(args)) + seq!["pull"@, remote, local]],
                collect: Coll::Download(local, enc),
                cleanup: None,
            };
            let read = transition(RunModel { plan, stage: Stage::Collecting }, Ev::BytesRead(Ok(bytes)));
            &&& tool_plan("adb_pull"@, args, temp, style) == Ok::<PlanModel, Failure>(plan)
            &&& enc && encodable_len(bytes.len() as int) ==> read == StepModel::Perform(
                RunModel { plan, stage: Stage::Cleaning(Ok(base64_encoding(bytes))) },
                Act::RemoveFile(local),
            )
            &&& !enc && valid_utf8(bytes) ==> read == StepModel::Perform(
                RunModel { plan, stage: Stage::Cleaning(Ok(decode_utf8(bytes))) },
                Act::RemoveFile(local),
            )
            &&& !enc && !valid_utf8(bytes) ==> read == StepModel::Perform(
                RunModel { plan, stage: Stage::Cleaning(Err(Failure::NotUtf8)) },
                Act::RemoveFile(local),
            )
        }),
{
    lemma_catalogue_names();
    lemma_catalogue_names_distinct();
    assert(catalogue()[4].name != catalogue()[0].name);
    assert(catalogue()[4].name != catalogue()[1].name);
    assert(catalogue()[4].name != catalogue()[2].name);
    assert(catalogue()[4].name != catalogue()[3].name);
}

} // verus!
