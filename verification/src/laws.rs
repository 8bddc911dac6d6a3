use vstd::prelude::*;

use crate::adb::device_options;
use crate::errors::Failure;
use crate::json::{json_get, json_str, str_member, Json};
use crate::path::{file_name, is_separator, join, lemma_file_name_is_component, starts_with_drive, PathStyle};
use crate::protocol::{response_id, speaks_v2, JsonRpcRequest};
use crate::codec::base64_encoding;
use crate::server::{device_of, flag, pull_plan, pull_target, routed, tool_plan, Route};
use crate::session::{
    accepts, adb_answer, document, downloaded, pending, start_step, transition, Act, Coll, Ev,
    PlanModel, RunModel, Stage, StepModel,
};
use crate::tools::{catalogue, ToolSpec};

verus! {

/// Whether a planned call was refused for want of a tool of that name.
pub open spec fn unknown_tool(r: Result<PlanModel, Failure>) -> bool {
    r matches Err(Failure::UnknownTool(_))
}

/// Whether the server advertises a tool named `name`.
pub open spec fn advertised(name: Seq<char>) -> bool {
    exists|i: int| 0 <= i < catalogue().len() && #[trigger] catalogue()[i].name == name
}

pub proof fn lemma_catalogue_names()
    ensures
        catalogue().len() == 10,
        catalogue()[0].name == "adb_devices"@,
        catalogue()[1].name == "adb_shell"@,
        catalogue()[2].name == "adb_install"@,
        catalogue()[3].name == "adb_logcat"@,
        catalogue()[4].name == "adb_pull"@,
        catalogue()[5].name == "adb_push"@,
        catalogue()[6].name == "adb_activity_manager"@,
        catalogue()[7].name == "adb_package_manager"@,
        catalogue()[8].name == "adb_inspect_ui"@,
        catalogue()[9].name == "adb_screenshot"@,
{
}

/// The tools that `tools/list` advertises are exactly the tools that
/// `tools/call` runs: a call is refused as naming an unknown tool if and
/// only if no advertised tool has that name.
pub proof fn law_listed_tools_are_callable(name: Seq<char>, args: Json, temp: Seq<char>, style: PathStyle)
    ensures
        advertised(name) <==> !unknown_tool(tool_plan(name, args, temp, style)),
{
    lemma_catalogue_names();
    if advertised(name) {
        let i = choose|i: int| 0 <= i < catalogue().len() && #[trigger] catalogue()[i].name == name;
        assert(0 <= i < 10);
    } else {
        assert(catalogue()[0].name == "adb_devices"@);
        assert(name != catalogue()[0].name);
        assert(name != catalogue()[1].name);
        assert(name != catalogue()[2].name);
        assert(name != catalogue()[3].name);
        assert(name != catalogue()[4].name);
        assert(name != catalogue()[5].name);
        assert(name != catalogue()[6].name);
        assert(name != catalogue()[7].name);
        assert(name != catalogue()[8].name);
        assert(name != catalogue()[9].name);
    }
}

/// The names that an advertised schema lists as required.
pub open spec fn required_names(t: ToolSpec) -> Seq<Seq<char>> {
    match json_get(t.input_schema, "required"@) {
        Some(Json::Array(items)) => items.map_values(
            |j: Json|
                match json_str(j) {
                    Some(s) => s,
                    None => Seq::empty(),
                },
        ),
        _ => Seq::empty(),
    }
}

/// The first of `names` that the arguments do not give as a string.
pub open spec fn first_missing(args: Json, names: Seq<Seq<char>>) -> Option<Seq<char>>
    decreases names.len(),
{
    if names.len() == 0 {
        None
    } else if str_member(args, names[0]) is None {
        Some(names[0])
    } else {
        first_missing(args, names.drop_first())
    }
}

/// A few characters that tell the advertised names apart.
spec fn name_tag(s: Seq<char>) -> (nat, char, char) {
    (s.len(), s[4], s[6])
}

/// No two advertised tools share a name.
pub proof fn lemma_catalogue_names_distinct()
    ensures
        forall|i: int, j: int|
            0 <= i < j < catalogue().len() ==> #[trigger] catalogue()[i].name != #[trigger] catalogue()[j].name,
{
    lemma_catalogue_names();
    reveal_strlit("adb_devices");
    reveal_strlit("adb_shell");
    reveal_strlit("adb_install");
    reveal_strlit("adb_logcat");
    reveal_strlit("adb_pull");
    reveal_strlit("adb_push");
    reveal_strlit("adb_activity_manager");
    reveal_strlit("adb_package_manager");
    reveal_strlit("adb_inspect_ui");
    reveal_strlit("adb_screenshot");
    assert forall|i: int, j: int| 0 <= i < j < catalogue().len() implies catalogue()[i].name
        != catalogue()[j].name by {
        assert(name_tag(catalogue()[i].name) != name_tag(catalogue()[j].name));
    }
}

/// The keys of a schema differ.
proof fn lemma_schema_keys_differ()
    ensures
        "properties"@ != "required"@,
{
    reveal_strlit("properties");
    reveal_strlit("required");
    assert("properties"@[0] != "required"@[0]);
}

/// The parameters that a tool's advertised schema marks as required are
/// exactly those whose absence refuses the call: the call fails for want
/// of the first required parameter that is not given as a string, and for
/// want of no parameter when all of them are given.
pub proof fn law_required_arguments_are_enforced(i: int, args: Json, temp: Seq<char>, style: PathStyle)
    requires
        0 <= i < catalogue().len(),
    ensures
        match first_missing(args, required_names(catalogue()[i])) {
            Some(k) => tool_plan(catalogue()[i].name, args, temp, style) == Err::<PlanModel, Failure>(
                Failure::MissingArgument(k),
            ),
            None => !(tool_plan(catalogue()[i].name, args, temp, style) matches Err(
                Failure::MissingArgument(_),
            )),
        },
{
    lemma_catalogue_names();
    lemma_catalogue_names_distinct();
    lemma_schema_keys_differ();
    reveal_with_fuel(first_missing, 3);
    reveal_with_fuel(crate::json::member, 3);
    let t = catalogue()[i];
    let names = required_names(t);
    if i == 0 || i == 3 || i == 8 || i == 9 {
        assert(names =~= Seq::<Seq<char>>::empty());
    } else if i == 1 {
        assert(names =~= seq!["command"@]);
    } else if i == 2 {
        assert(names =~= seq!["apk_path"@]);
    } else if i == 4 {
        assert(names =~= seq!["remote_path"@]);
    } else if i == 5 {
        assert(names =~= seq!["file_base64"@, "remote_path"@]);
    } else if i == 6 {
        assert(names =~= seq!["am_command"@]);
    } else {
        assert(names =~= seq!["pm_command"@]);
    }
}

/// Whether every command of a plan begins with the options that select
/// `device`.
pub open spec fn targets(plan: PlanModel, device: Option<Seq<char>>) -> bool {
    forall|k: int| 0 <= k < plan.commands.len() ==> device_options(device).is_prefix_of(#[trigger] plan.commands[k])
}

/// Every `adb` command of a tool call is aimed at the device that the
/// arguments name, through `-s <device>`, and at no device in particular
/// when they name none; `adb_devices`, which lists devices, never aims at
/// one.
pub proof fn law_commands_target_the_named_device(name: Seq<char>, args: Json, temp: Seq<char>, style: PathStyle)
    ensures
        tool_plan(name, args, temp, style) matches Ok(p) ==> targets(
            p,
            if name == "adb_devices"@ {
                None
            } else {
                device_of(args)
            },
        ),
{
    let r = tool_plan(name, args, temp, style);
    if let Ok(p) = r {
        let d = if name == "adb_devices"@ {
            None
        } else {
            device_of(args)
        };
        assert forall|k: int| 0 <= k < p.commands.len() implies device_options(d).is_prefix_of(
            #[trigger] p.commands[k],
        ) by {
            let c = p.commands[k];
            let pre = device_options(d);
            if name == "adb_devices"@ {
                assert(pre.len() == 0);
            } else {
                assert(c.subrange(0, pre.len() as int) =~= pre);
            }
        }
    }
}

/// A well-formed run: it has commands, and where it stands agrees with its
/// plan.
pub open spec fn run_wf(run: RunModel) -> bool {
    &&& run.plan.commands.len() >= 1
    &&& match run.stage {
        Stage::Preparing => !(run.plan.prepare is Nothing),
        Stage::Running(i) => i < run.plan.commands.len(),
        Stage::Collecting => run.plan.collect is Download || run.plan.collect is Document,
        Stage::Cleaning(_) => true,
    }
}

/// A run begins well formed, waiting for at most three answers more than
/// it has commands.
pub proof fn law_runs_start_bounded(plan: PlanModel)
    requires
        plan.commands.len() >= 1,
    ensures
        start_step(plan) matches StepModel::Perform(r, _) && run_wf(r) && pending(r)
            <= plan.commands.len() + 3,
{
}

/// Every answer that a run accepts brings it closer to its end: the run
/// either finishes or stays well formed with fewer answers to wait for, so
/// no tool call waits for more than its commands and three more answers.
pub proof fn law_every_run_ends(run: RunModel, ev: Ev)
    requires
        run_wf(run),
        accepts(run, ev),
    ensures
        transition(run, ev) matches StepModel::Perform(next, _) ==> run_wf(next) && 1 <= pending(next)
            < pending(run),
{
}

/// A file staged for upload is removed once its command has run, whether
/// the command succeeded or not, and the call then reports what the
/// command came to.
pub proof fn law_staged_upload_is_removed(run: RunModel, ev: Ev, staged: Seq<char>)
    requires
        run_wf(run),
        run.stage is Running,
        run.stage->Running_0 + 1 == run.plan.commands.len() || adb_answer(ev) is Err,
        run.plan.cleanup == Some(staged),
        run.plan.collect is Output,
        accepts(run, ev),
    ensures
        transition(run, ev) == StepModel::Perform(
            RunModel { plan: run.plan, stage: Stage::Cleaning(adb_answer(ev)) },
            Act::RemoveFile(staged),
        ),
        transition(
            RunModel { plan: run.plan, stage: Stage::Cleaning(adb_answer(ev)) },
            Ev::FileRemoved,
        ) == StepModel::Finish(adb_answer(ev)),
{
}

/// A fetched file that has been read is removed before the call answers,
/// and the answer is made of what was read.
pub proof fn law_fetched_file_is_removed(run: RunModel, ev: Ev)
    requires
        run_wf(run),
        run.stage is Collecting,
        accepts(run, ev),
        ev matches Ev::BytesRead(Ok(_)) || ev matches Ev::TextRead(Ok(_)),
    ensures
        transition(run, ev) matches StepModel::Perform(next, Act::RemoveFile(l)) && match run.plan.collect {
            Coll::Download(local, enc) => l == local && next.stage == Stage::Cleaning(
                downloaded(enc, ev->BytesRead_0->Ok_0),
            ),
            Coll::Document(local, enc) => l == local && next.stage == Stage::Cleaning(
                document(enc, ev->TextRead_0->Ok_0),
            ),
            _ => false,
        },
{
}

/// A pulled file lands under the temporary directory: its local path is
/// the directory followed by more text.  On Windows a remote name that
/// begins with a drive (`D:x`) is a path of its own and replaces the
/// directory; such names are left out.
pub proof fn law_pulled_file_stays_in_temp_dir(style: PathStyle, temp: Seq<char>, remote: Seq<char>)
    requires
        style == PathStyle::Windows ==> !(file_name(style, remote) matches Some(n) && starts_with_drive(n)),
    ensures
        temp.is_prefix_of(pull_target(style, temp, remote)),
        pull_target(style, temp, remote).len() > temp.len(),
{
    lemma_file_name_is_component(style, remote);
    reveal_strlit("pulled_file");
    let name = match file_name(style, remote) {
        Some(n) => n,
        None => "pulled_file"@,
    };
    assert(name.len() > 0 && !is_separator(style, name[0]));
    assert(!(style == PathStyle::Windows && starts_with_drive(name)));
    let full = join(style, temp, name);
    assert(full.subrange(0, temp.len() as int) =~= temp);
}

/// A file pushed from a base64 text comes back as that same text when it
/// is pulled, unchanged on the device, as base64 (the default): the push
/// stages bytes whose base64 is the text (as `adb_push` ensures), and the
/// pull, once its command succeeded, reads the file, removes its local
/// copy and answers with the base64 of what it read.
pub proof fn law_pushed_file_pulls_back_unchanged(
    pull_args: Json,
    temp: Seq<char>,
    style: PathStyle,
    staged: Seq<u8>,
    text: Seq<char>,
    out: Seq<u8>,
    err: Seq<u8>,
)
    requires
        base64_encoding(staged) == text,
        pull_plan(pull_args, temp, style) is Ok,
        flag(pull_args, "as_base64"@, true),
    ensures
        ({
            let plan = pull_plan(pull_args, temp, style)->Ok_0;
            let local = pull_target(style, temp, str_member(pull_args, "remote_path"@)->Some_0);
            &&& transition(RunModel { plan, stage: Stage::Running(0) }, Ev::AdbExited(true, out, err))
                == StepModel::Perform(RunModel { plan, stage: Stage::Collecting }, Act::ReadBytes(local))
            &&& transition(RunModel { plan, stage: Stage::Collecting }, Ev::BytesRead(Ok(staged)))
                == StepModel::Perform(
                RunModel { plan, stage: Stage::Cleaning(Ok(text)) },
                Act::RemoveFile(local),
            )
            &&& transition(RunModel { plan, stage: Stage::Cleaning(Ok(text)) }, Ev::FileRemoved)
                == StepModel::Finish(Ok(text))
        }),
{
}

/// Every reply to a request carries the request's id and protocol version
/// "2.0", and a tool call keeps the id for its reply.
pub proof fn law_replies_answer_the_request(req: JsonRpcRequest, route: Route)
    requires
        routed(req, route),
    ensures
        route matches Route::Respond(r) ==> response_id(r) == req.id@ && speaks_v2(r),
        route matches Route::CallTool { id, .. } ==> id@ == req.id@,
{
}

} // verus!
