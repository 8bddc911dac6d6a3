use vstd::prelude::*;
use vstd::utf8::{decode_utf8, encode_utf8, valid_utf8};

use crate::adb::{adb_outcome, adb_result, copy_texts, outcome_view, texts};
use crate::codec::{base64_encode, base64_encoding, encodable_len, utf8_text};
use crate::errors::{Failure, ToolError};

verus! {

/// One piece of outside work that a tool run asks for.
#[derive(Debug)]
pub enum Action {
    /// Run `adb` with these arguments.
    RunAdb(Vec<String>),
    /// Find out whether a local file exists.
    CheckFile(String),
    /// Read a local file as bytes.
    ReadBytes(String),
    /// Read a local file as UTF-8 text.
    ReadText(String),
    /// Write these bytes to a local file.
    WriteBytes(String, Vec<u8>),
    /// Remove a local file; whether that works does not matter.
    RemoveFile(String),
}

/// The model of an `Action`.
pub enum Act {
    RunAdb(Seq<Seq<char>>),
    CheckFile(Seq<char>),
    ReadBytes(Seq<char>),
    ReadText(Seq<char>),
    WriteBytes(Seq<char>, Seq<u8>),
    RemoveFile(Seq<char>),
}

impl View for Action {
    type V = Act;

    open spec fn view(&self) -> Act {
        match self {
            Action::RunAdb(argv) => Act::RunAdb(texts(argv@)),
            Action::CheckFile(p) => Act::CheckFile(p@),
            Action::ReadBytes(p) => Act::ReadBytes(p@),
            Action::ReadText(p) => Act::ReadText(p@),
            Action::WriteBytes(p, b) => Act::WriteBytes(p@, b@),
            Action::RemoveFile(p) => Act::RemoveFile(p@),
        }
    }
}

/// What the outside world answers to an `Action`.
#[derive(Debug)]
pub enum Event {
    /// `adb` ran to its end.
    AdbExited { success: bool, stdout: Vec<u8>, stderr: Vec<u8> },
    /// `adb` could not be started.
    AdbNotStarted,
    /// Whether the file exists.
    FileChecked(bool),
    /// The bytes of the file, or why they could not be read.
    BytesRead(Result<Vec<u8>, String>),
    /// The text of the file, or why it could not be read.
    TextRead(Result<String, String>),
    /// Whether the file was written, and why not.
    BytesWritten(Result<(), String>),
    /// The file was removed, or removing it failed.
    FileRemoved,
}

/// The model of an `Event`.
pub enum Ev {
    AdbExited(bool, Seq<u8>, Seq<u8>),
    AdbNotStarted,
    FileChecked(bool),
    BytesRead(Result<Seq<u8>, Seq<char>>),
    TextRead(Result<Seq<char>, Seq<char>>),
    BytesWritten(Result<(), Seq<char>>),
    FileRemoved,
}

impl View for Event {
    type V = Ev;

    open spec fn view(&self) -> Ev {
        match self {
            Event::AdbExited { success, stdout, stderr } => Ev::AdbExited(*success, stdout@, stderr@),
            Event::AdbNotStarted => Ev::AdbNotStarted,
            Event::FileChecked(b) => Ev::FileChecked(*b),
            Event::BytesRead(r) => Ev::BytesRead(
                match r {
                    Ok(b) => Ok(b@),
                    Err(m) => Err(m@),
                },
            ),
            Event::TextRead(r) => Ev::TextRead(
                match r {
                    Ok(s) => Ok(s@),
                    Err(m) => Err(m@),
                },
            ),
            Event::BytesWritten(r) => Ev::BytesWritten(
                match r {
                    Ok(()) => Ok(()),
                    Err(m) => Err(m@),
                },
            ),
            Event::FileRemoved => Ev::FileRemoved,
        }
    }
}

/// What must happen before the `adb` commands of a plan.
#[derive(Debug)]
pub enum Prepare {
    Nothing,
    /// The local file must exist.
    RequireFile(String),
    /// These bytes must be written to a local file.
    StageUpload(String, Vec<u8>),
}

/// How the answer of a plan is obtained once its commands succeeded.
#[derive(Debug)]
pub enum Collect {
    /// The standard output of the last command.
    Output,
    /// The bytes of the local file, as base64 (`true`) or as UTF-8 text.
    Download(String, bool),
    /// The text of the local file, as base64 of its UTF-8 (`true`) or as is.
    Document(String, bool),
    /// Nothing is read: the local file is removed and a fixed note answers.
    Discard(String),
}

/// What a tool call will do.
#[derive(Debug)]
pub struct Plan {
    pub prepare: Prepare,
    /// The `adb` runs, in order; each one must succeed for the next to run.
    pub commands: Vec<Vec<String>>,
    pub collect: Collect,
    /// A local file removed after the commands, whatever their outcome.
    pub cleanup: Option<String>,
}

pub enum Prep {
    Nothing,
    RequireFile(Seq<char>),
    StageUpload(Seq<char>, Seq<u8>),
}

pub enum Coll {
    Output,
    Download(Seq<char>, bool),
    Document(Seq<char>, bool),
    Discard(Seq<char>),
}

/// The model of a `Plan`.
pub struct PlanModel {
    pub prepare: Prep,
    pub commands: Seq<Seq<Seq<char>>>,
    pub collect: Coll,
    pub cleanup: Option<Seq<char>>,
}

pub open spec fn commands_view(commands: Seq<Vec<String>>) -> Seq<Seq<Seq<char>>> {
    commands.map_values(|c: Vec<String>| texts(c@))
}

impl View for Plan {
    type V = PlanModel;

    open spec fn view(&self) -> PlanModel {
        PlanModel {
            prepare: match self.prepare {
                Prepare::Nothing => Prep::Nothing,
                Prepare::RequireFile(p) => Prep::RequireFile(p@),
                Prepare::StageUpload(p, b) => Prep::StageUpload(p@, b@),
            },
            commands: commands_view(self.commands@),
            collect: match self.collect {
                Collect::Output => Coll::Output,
                Collect::Download(p, e) => Coll::Download(p@, e),
                Collect::Document(p, e) => Coll::Document(p@, e),
                Collect::Discard(p) => Coll::Discard(p@),
            },
            cleanup: match self.cleanup {
                Some(t) => Some(t@),
                None => None,
            },
        }
    }
}

/// Where a run stands.
enum Phase {
    Preparing,
    Running(usize),
    Collecting,
    Cleaning(Result<String, ToolError>),
}

/// The model of where a run stands.
pub enum Stage {
    Preparing,
    Running(nat),
    Collecting,
    Cleaning(Result<Seq<char>, Failure>),
}

/// The model of a run in progress.
pub struct RunModel {
    pub plan: PlanModel,
    pub stage: Stage,
}

/// What a run does next: an action to perform, with the run that awaits
/// its answer, or the run's end with the tool's text or its failure.
pub enum Step {
    Perform(ToolRun, Action),
    Finish(Result<String, ToolError>),
}

pub enum StepModel {
    Perform(RunModel, Act),
    Finish(Result<Seq<char>, Failure>),
}

/// The note that answers a screenshot that is not returned.
pub open spec fn screenshot_note() -> Seq<char> {
    "Screenshot captured successfully"@
}

/// Run command `i` of the plan.
pub open spec fn launch(plan: PlanModel, i: nat) -> StepModel {
    StepModel::Perform(RunModel { plan, stage: Stage::Running(i) }, Act::RunAdb(plan.commands[i as int]))
}

/// The first step of a plan.
pub open spec fn start_step(plan: PlanModel) -> StepModel {
    match plan.prepare {
        Prep::Nothing => launch(plan, 0),
        Prep::RequireFile(p) => StepModel::Perform(
            RunModel { plan, stage: Stage::Preparing },
            Act::CheckFile(p),
        ),
        Prep::StageUpload(t, b) => StepModel::Perform(
            RunModel { plan, stage: Stage::Preparing },
            Act::WriteBytes(t, b),
        ),
    }
}

/// End with `o`, after removing the plan's cleanup file if it has one.
pub open spec fn conclude(plan: PlanModel, o: Result<Seq<char>, Failure>) -> StepModel {
    match plan.cleanup {
        Some(t) => StepModel::Perform(RunModel { plan, stage: Stage::Cleaning(o) }, Act::RemoveFile(t)),
        None => StepModel::Finish(o),
    }
}

/// What follows the success of the last command, whose output is `text`.
pub open spec fn collect_step(plan: PlanModel, text: Seq<char>) -> StepModel {
    match plan.collect {
        Coll::Output => conclude(plan, Ok(text)),
        Coll::Download(l, _) => StepModel::Perform(
            RunModel { plan, stage: Stage::Collecting },
            Act::ReadBytes(l),
        ),
        Coll::Document(l, _) => StepModel::Perform(
            RunModel { plan, stage: Stage::Collecting },
            Act::ReadText(l),
        ),
        Coll::Discard(l) => StepModel::Perform(
            RunModel { plan, stage: Stage::Cleaning(Ok(screenshot_note())) },
            Act::RemoveFile(l),
        ),
    }
}

/// The answer made of downloaded bytes.
pub open spec fn downloaded(encode: bool, bytes: Seq<u8>) -> Result<Seq<char>, Failure> {
    if encode {
        Ok(base64_encoding(bytes))
    } else if valid_utf8(bytes) {
        Ok(decode_utf8(bytes))
    } else {
        Err(Failure::NotUtf8)
    }
}

/// The answer made of a downloaded text.
pub open spec fn document(encode: bool, text: Seq<char>) -> Result<Seq<char>, Failure> {
    if encode {
        Ok(base64_encoding(encode_utf8(text)))
    } else {
        Ok(text)
    }
}

/// Which answers a run in this state waits for.
pub open spec fn accepts(run: RunModel, ev: Ev) -> bool {
    match run.stage {
        Stage::Preparing => match run.plan.prepare {
            Prep::RequireFile(_) => ev is FileChecked,
            Prep::StageUpload(_, _) => ev is BytesWritten,
            Prep::Nothing => false,
        },
        Stage::Running(_) => ev is AdbExited || ev is AdbNotStarted,
        Stage::Collecting => match run.plan.collect {
            Coll::Download(_, enc) => match ev {
                Ev::BytesRead(Ok(b)) => enc ==> encodable_len(b.len() as int),
                Ev::BytesRead(Err(_)) => true,
                _ => false,
            },
            Coll::Document(_, enc) => match ev {
                Ev::TextRead(Ok(s)) => enc ==> encodable_len(encode_utf8(s).len() as int),
                Ev::TextRead(Err(_)) => true,
                _ => false,
            },
            _ => false,
        },
        Stage::Cleaning(_) => ev is FileRemoved,
    }
}

/// The outcome of an `adb` answer.
pub open spec fn adb_answer(ev: Ev) -> Result<Seq<char>, Failure> {
    match ev {
        Ev::AdbExited(ok, out, err) => adb_result(ok, out, err),
        _ => Err(Failure::AdbUnavailable),
    }
}

/// What a run does on an answer it accepts.
pub open spec fn transition(run: RunModel, ev: Ev) -> StepModel {
    let plan = run.plan;
    match run.stage {
        Stage::Preparing => match ev {
            Ev::FileChecked(true) => launch(plan, 0),
            Ev::FileChecked(false) => match plan.prepare {
                Prep::RequireFile(p) => StepModel::Finish(Err(Failure::ApkNotFound(p))),
                _ => StepModel::Finish(Err(Failure::AdbUnavailable)),
            },
            Ev::BytesWritten(Ok(())) => launch(plan, 0),
            Ev::BytesWritten(Err(m)) => StepModel::Finish(Err(Failure::Io(m))),
            _ => StepModel::Finish(Err(Failure::AdbUnavailable)),
        },
        Stage::Running(i) => match adb_answer(ev) {
            Err(f) => conclude(plan, Err(f)),
            Ok(text) => if i + 1 < plan.commands.len() {
                launch(plan, i + 1)
            } else {
                collect_step(plan, text)
            },
        },
        Stage::Collecting => match ev {
            Ev::BytesRead(Ok(b)) => match plan.collect {
                Coll::Download(l, enc) => StepModel::Perform(
                    RunModel { plan, stage: Stage::Cleaning(downloaded(enc, b)) },
                    Act::RemoveFile(l),
                ),
                _ => StepModel::Finish(Err(Failure::AdbUnavailable)),
            },
            Ev::TextRead(Ok(s)) => match plan.collect {
                Coll::Document(l, enc) => StepModel::Perform(
                    RunModel { plan, stage: Stage::Cleaning(document(enc, s)) },
                    Act::RemoveFile(l),
                ),
                _ => StepModel::Finish(Err(Failure::AdbUnavailable)),
            },
            Ev::BytesRead(Err(m)) => StepModel::Finish(Err(Failure::Io(m))),
            Ev::TextRead(Err(m)) => StepModel::Finish(Err(Failure::Io(m))),
            _ => StepModel::Finish(Err(Failure::AdbUnavailable)),
        },
        Stage::Cleaning(o) => StepModel::Finish(o),
    }
}

/// How many answers a run may still wait for, at most.
pub open spec fn pending(run: RunModel) -> int {
    match run.stage {
        Stage::Preparing => run.plan.commands.len() as int + 3,
        Stage::Running(i) => run.plan.commands.len() - i + 2,
        Stage::Collecting => 2,
        Stage::Cleaning(_) => 1,
    }
}

/// A tool call in progress.
pub struct ToolRun {
    plan: Plan,
    phase: Phase,
}

impl ToolRun {
    #[verifier::type_invariant]
    spec fn well_formed(self) -> bool {
        &&& self.plan.commands@.len() >= 1
        &&& match self.phase {
            Phase::Preparing => !(self.plan.prepare is Nothing),
            Phase::Running(i) => i < self.plan.commands@.len(),
            Phase::Collecting => self.plan.collect is Download || self.plan.collect is Document,
            Phase::Cleaning(_) => true,
        }
    }

    pub closed spec fn model(self) -> RunModel {
        RunModel {
            plan: self.plan@,
            stage: match self.phase {
                Phase::Preparing => Stage::Preparing,
                Phase::Running(i) => Stage::Running(i as nat),
                Phase::Collecting => Stage::Collecting,
                Phase::Cleaning(o) => Stage::Cleaning(outcome_view(o)),
            },
        }
    }
}

/// Whether the base64 text of `n` bytes fits in memory.
fn fits_base64(n: usize) -> (r: bool)
    ensures
        r == encodable_len(n as int),
{
    let groups: usize = n / 3 + if n % 3 > 0 {
        1
    } else {
        0
    };
    assert(groups == (n + 2) / 3);
    groups <= usize::MAX / 4
}

impl ToolRun {
    /// Runs command `i` of `plan`.
    fn launch(plan: Plan, i: usize) -> (s: Step)
        requires
            i < plan.commands@.len(),
        ensures
            s@ == launch(plan@, i as nat),
    {
        let argv = copy_texts(&plan.commands[i]);
        Step::Perform(ToolRun { plan, phase: Phase::Running(i) }, Action::RunAdb(argv))
    }

    /// Ends with `o`, removing the plan's cleanup file first if it has one.
    fn conclude(plan: Plan, o: Result<String, ToolError>) -> (s: Step)
        requires
            plan.commands@.len() >= 1,
        ensures
            s@ == conclude(plan@, outcome_view(o)),
    {
        let target = match &plan.cleanup {
            Some(t) => Some(t.clone()),
            None => None,
        };
        match target {
            Some(t) => Step::Perform(ToolRun { plan, phase: Phase::Cleaning(o) }, Action::RemoveFile(t)),
            None => Step::Finish(o),
        }
    }

    /// Goes on once the last command succeeded with output `text`.
    fn collect_step(plan: Plan, text: String) -> (s: Step)
        requires
            plan.commands@.len() >= 1,
        ensures
            s@ == collect_step(plan@, text@),
    {
        let next = match &plan.collect {
            Collect::Output => None,
            Collect::Download(l, _) => Some(Action::ReadBytes(l.clone())),
            Collect::Document(l, _) => Some(Action::ReadText(l.clone())),
            Collect::Discard(l) => Some(Action::RemoveFile(l.clone())),
        };
        match next {
            None => Self::conclude(plan, Ok(text)),
            Some(Action::RemoveFile(l)) => {
                let note = "Screenshot captured successfully".to_owned();
                Step::Perform(ToolRun { plan, phase: Phase::Cleaning(Ok(note)) }, Action::RemoveFile(l))
            },
            Some(a) => Step::Perform(ToolRun { plan, phase: Phase::Collecting }, a),
        }
    }

    /// The answer made of downloaded bytes.
    fn downloaded(encode: bool, bytes: Vec<u8>) -> (o: Result<String, ToolError>)
        requires
            encode ==> encodable_len(bytes@.len() as int),
        ensures
            outcome_view(o) == downloaded(encode, bytes@),
    {
        if encode {
            Ok(base64_encode(bytes.as_slice()))
        } else {
            match utf8_text(bytes) {
                Some(s) => Ok(s),
                None => Err(ToolError::NotUtf8),
            }
        }
    }

    /// The answer made of a downloaded text.
    fn document(encode: bool, text: String) -> (o: Result<String, ToolError>)
        requires
            encode ==> encodable_len(encode_utf8(text@).len() as int),
        ensures
            outcome_view(o) == document(encode, text@),
    {
        if encode {
            Ok(base64_encode(text.as_str().as_bytes()))
        } else {
            Ok(text)
        }
    }

    /// Begins carrying out `plan`.
    pub fn start(plan: Plan) -> (s: Step)
        requires
            plan.commands@.len() >= 1,
        ensures
            s@ == start_step(plan@),
    {
        let first = match &plan.prepare {
            Prepare::Nothing => None,
            Prepare::RequireFile(p) => Some(Action::CheckFile(p.clone())),
            Prepare::StageUpload(t, b) => Some(Action::WriteBytes(t.clone(), b.clone())),
        };
        match first {
            None => Self::launch(plan, 0),
            Some(a) => Step::Perform(ToolRun { plan, phase: Phase::Preparing }, a),
        }
    }

    /// Whether the run waits for an answer like `event`.
    pub fn accepts(&self, event: &Event) -> (r: bool)
        ensures
            r == accepts(self@, event@),
    {
        match &self.phase {
            Phase::Preparing => match &self.plan.prepare {
                Prepare::RequireFile(_) => match event {
                    Event::FileChecked(_) => true,
                    _ => false,
                },
                Prepare::StageUpload(_, _) => match event {
                    Event::BytesWritten(_) => true,
                    _ => false,
                },
                Prepare::Nothing => false,
            },
            Phase::Running(_) => match event {
                Event::AdbExited { .. } => true,
                Event::AdbNotStarted => true,
                _ => false,
            },
            Phase::Collecting => match &self.plan.collect {
                Collect::Download(_, enc) => match event {
                    Event::BytesRead(Ok(b)) => !*enc || fits_base64(b.len()),
                    Event::BytesRead(Err(_)) => true,
                    _ => false,
                },
                Collect::Document(_, enc) => match event {
                    Event::TextRead(Ok(s)) => !*enc || fits_base64(s.as_str().as_bytes().len()),
                    Event::TextRead(Err(_)) => true,
                    _ => false,
                },
                _ => false,
            },
            Phase::Cleaning(_) => match event {
                Event::FileRemoved => true,
                _ => false,
            },
        }
    }

    /// Takes the answer to the last action and says what comes next.  Each
    /// step leaves fewer answers to wait for.
    pub fn step(self, event: Event) -> (s: Step)
        requires
            accepts(self@, event@),
        ensures
            s@ == transition(self@, event@),
            s matches Step::Perform(r, _) ==> pending(r@) < pending(self@),
    {
        proof {
            use_type_invariant(&self);
        }
        let ghost before = self@;
        let ToolRun { plan, phase } = self;
        match phase {
            Phase::Preparing => match event {
                Event::FileChecked(true) => Self::launch(plan, 0),
                Event::FileChecked(false) => match plan.prepare {
                    Prepare::RequireFile(p) => Step::Finish(Err(ToolError::ApkNotFound(p))),
                    _ => Step::Finish(Err(ToolError::AdbUnavailable)),
                },
                Event::BytesWritten(Ok(())) => Self::launch(plan, 0),
                Event::BytesWritten(Err(m)) => Step::Finish(Err(ToolError::Io(m))),
                _ => Step::Finish(Err(ToolError::AdbUnavailable)),
            },
            Phase::Running(i) => {
                let count = plan.commands.len();
                let out = match &event {
                    Event::AdbExited { success, stdout, stderr } => adb_outcome(
                        *success,
                        stdout.as_slice(),
                        stderr.as_slice(),
                    ),
                    _ => Err(ToolError::AdbUnavailable),
                };
                match out {
                    Err(e) => Self::conclude(plan, Err(e)),
                    Ok(text) => if i + 1 < count {
                        Self::launch(plan, i + 1)
                    } else {
                        Self::collect_step(plan, text)
                    },
                }
            },
            Phase::Collecting => match event {
                Event::BytesRead(Ok(b)) => {
                    let target = match &plan.collect {
                        Collect::Download(l, enc) => Some((l.clone(), *enc)),
                        _ => None,
                    };
                    match target {
                        Some((l, enc)) => {
                            let o = Self::downloaded(enc, b);
                            Step::Perform(ToolRun { plan, phase: Phase::Cleaning(o) }, Action::RemoveFile(l))
                        },
                        None => Step::Finish(Err(ToolError::AdbUnavailable)),
                    }
                },
                Event::TextRead(Ok(t)) => {
                    let target = match &plan.collect {
                        Collect::Document(l, enc) => Some((l.clone(), *enc)),
                        _ => None,
                    };
                    match target {
                        Some((l, enc)) => {
                            let o = Self::document(enc, t);
                            Step::Perform(ToolRun { plan, phase: Phase::Cleaning(o) }, Action::RemoveFile(l))
                        },
                        None => Step::Finish(Err(ToolError::AdbUnavailable)),
                    }
                },
                Event::BytesRead(Err(m)) => Step::Finish(Err(ToolError::Io(m))),
                Event::TextRead(Err(m)) => Step::Finish(Err(ToolError::Io(m))),
                _ => Step::Finish(Err(ToolError::AdbUnavailable)),
            },
            Phase::Cleaning(o) => Step::Finish(o),
        }
    }
}

impl View for ToolRun {
    type V = RunModel;

    open spec fn view(&self) -> RunModel {
        self.model()
    }
}

impl View for Step {
    type V = StepModel;

    open spec fn view(&self) -> StepModel {
        match self {
            Step::Perform(run, a) => StepModel::Perform(run@, a@),
            Step::Finish(o) => StepModel::Finish(outcome_view(*o)),
        }
    }
}

} // verus!
