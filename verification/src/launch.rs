//! The launch cascade: which editor is tried, in what order, and what is
//! said when one of them cannot be started.
//!
//! The library spawns nothing. A `Cascade` names the next program to try;
//! the caller runs it and hands back how that went, together with the line
//! to print, until the cascade is done.

use crate::env_var::{Editors, EditorsView};
use crate::platform::HostCapability;
use std::path::PathBuf;
use vstd::prelude::*;

verus! {

/// What one attempt runs.
#[derive(Debug, Clone, PartialEq, Eq)]
pub enum Program {
    /// An editor named by the user.
    Named(String),
    /// The platform's way of opening a file with its default application.
    NativeOpener,
}

/// A `Program` with its name as a text.
pub enum ProgramView {
    Named(Seq<char>),
    NativeOpener,
}

impl View for Program {
    type V = ProgramView;

    open spec fn view(&self) -> ProgramView {
        match self {
            Program::Named(name) => ProgramView::Named(name@),
            Program::NativeOpener => ProgramView::NativeOpener,
        }
    }
}

/// How an attempt ended, as far as the cascade cares.
#[derive(Debug, Clone, Copy, PartialEq, Eq, Structural)]
pub enum Outcome {
    /// The program started and ran until it exited.
    Success,
    /// The program could not be started.
    Failure,
}

/// What the operating system reported of a spawned program.
#[derive(Debug, Clone, Copy, PartialEq, Eq, Structural)]
pub enum SpawnResult {
    /// The program started and exited, with this exit code if it has one.
    Exited(Option<i32>),
    /// The program did not start: it was not found, or the system refused.
    NotStarted,
}

/// A program that ran to its end succeeded, whatever its exit code.
pub open spec fn outcome_of(result: SpawnResult) -> Outcome {
    match result {
        SpawnResult::Exited(_) => Outcome::Success,
        SpawnResult::NotStarted => Outcome::Failure,
    }
}

impl SpawnResult {
    /// Judges a spawn by whether the program started, not by its exit code.
    pub fn outcome(&self) -> (outcome: Outcome)
        ensures
            outcome == outcome_of(*self),
    {
        match self {
            SpawnResult::Exited(_) => Outcome::Success,
            SpawnResult::NotStarted => Outcome::Failure,
        }
    }
}

/// The stages of a launch, in the order in which they are passed.
#[derive(Debug, Clone, Copy, PartialEq, Eq, Structural)]
pub enum Stage {
    Init,
    TryTerminal,
    TryVisual,
    TryNativeOpen,
    Done,
}

/// A line that tells the user what went wrong.
#[derive(Debug, Clone, Copy, PartialEq, Eq, Structural)]
pub enum Diagnostic {
    /// No terminal editor ran; the visual editor is next.
    TerminalFallback,
    /// No visual editor ran; the native opener is next.
    VisualFallback,
    /// The native opener failed at the end of the cascade.
    NoEditorOpened,
    /// The native opener failed where it was the only thing to try.
    DefaultOpenFailed,
}

/// The text of each diagnostic.
pub open spec fn message_of(diagnostic: Diagnostic) -> Seq<char> {
    match diagnostic {
        Diagnostic::TerminalFallback =>
            "Error opening terminal based editor set on $EDITOR env var, fallbacking to visual ones."@,
        Diagnostic::VisualFallback =>
            "Failed to open $VISUAL editor, fallbacking to system default."@,
        Diagnostic::NoEditorOpened => "Couldn't open any of your default editors."@,
        Diagnostic::DefaultOpenFailed => "Failed to open file on default text editor"@,
    }
}

impl Diagnostic {
    /// The line to print.
    pub fn message(&self) -> (line: &'static str)
        ensures
            line@ == message_of(*self),
    {
        match self {
            Diagnostic::TerminalFallback =>
                "Error opening terminal based editor set on $EDITOR env var, fallbacking to visual ones.",
            Diagnostic::VisualFallback =>
                "Failed to open $VISUAL editor, fallbacking to system default.",
            Diagnostic::NoEditorOpened => "Couldn't open any of your default editors.",
            Diagnostic::DefaultOpenFailed => "Failed to open file on default text editor",
        }
    }
}

/// One attempt: what was run, on which file, and how it ended.
#[derive(Debug, Clone, PartialEq, Eq)]
pub struct LaunchAttempt {
    pub program: Program,
    pub target: PathBuf,
    pub outcome: Outcome,
}

/// A `LaunchAttempt` with its program as a `ProgramView`.
pub struct LaunchAttemptView {
    pub program: ProgramView,
    pub target: PathBuf,
    pub outcome: Outcome,
}

impl View for LaunchAttempt {
    type V = LaunchAttemptView;

    open spec fn view(&self) -> LaunchAttemptView {
        LaunchAttemptView { program: self.program@, target: self.target, outcome: self.outcome }
    }
}

/// A launch in progress.
#[derive(Debug, Clone, PartialEq, Eq)]
pub struct Cascade {
    host: HostCapability,
    editors: Editors,
    target: PathBuf,
    stage: Stage,
}

/// What a `Cascade` holds.
pub struct CascadeView {
    pub host: HostCapability,
    pub editors: EditorsView,
    pub target: PathBuf,
    pub stage: Stage,
}

impl View for Cascade {
    type V = CascadeView;

    closed spec fn view(&self) -> CascadeView {
        CascadeView {
            host: self.host,
            editors: self.editors@,
            target: self.target,
            stage: self.stage,
        }
    }
}

/// A launch that has not begun.
pub open spec fn initial(host: HostCapability, editors: EditorsView, target: PathBuf) -> CascadeView {
    CascadeView { host, editors, target, stage: Stage::Init }
}

/// An editor's name as a program, where there is a name.
pub open spec fn named(name: Option<Seq<char>>) -> Option<ProgramView> {
    match name {
        Some(name) => Some(ProgramView::Named(name)),
        None => None,
    }
}

/// The program to try at the current stage, if the stage has one.
pub open spec fn candidate_of(c: CascadeView) -> Option<ProgramView> {
    match c.stage {
        Stage::TryTerminal => named(c.editors.editor),
        Stage::TryVisual => named(c.editors.visual),
        Stage::TryNativeOpen => Some(ProgramView::NativeOpener),
        Stage::Init | Stage::Done => None,
    }
}

/// Whether the stage's program was tried and ran. An outcome reported for a
/// stage that has no program counts for nothing.
pub open spec fn succeeded(c: CascadeView, outcome: Option<Outcome>) -> bool {
    candidate_of(c) is Some && outcome == Some(Outcome::Success)
}

/// The stage that follows. A success ends the launch; a failure, or a stage
/// with nothing to try, leads to the next stage in order. A host without a
/// terminal goes from the start to the native opener.
pub open spec fn next_stage(c: CascadeView, outcome: Option<Outcome>) -> Stage {
    match c.stage {
        Stage::Init => match c.host {
            HostCapability::TerminalCapable => Stage::TryTerminal,
            HostCapability::NativeOnly => Stage::TryNativeOpen,
        },
        Stage::TryTerminal => if succeeded(c, outcome) {
            Stage::Done
        } else {
            Stage::TryVisual
        },
        Stage::TryVisual => if succeeded(c, outcome) {
            Stage::Done
        } else {
            Stage::TryNativeOpen
        },
        Stage::TryNativeOpen | Stage::Done => Stage::Done,
    }
}

/// The line to print on leaving the stage. A success prints nothing. Leaving
/// the terminal stage without one announces the visual editor, unless the
/// user named no editor at all; leaving the visual stage announces the native
/// opener; a native opener that fails gets the last word.
pub open spec fn diagnostic_of(c: CascadeView, outcome: Option<Outcome>) -> Option<Diagnostic> {
    if succeeded(c, outcome) {
        None
    } else {
        match c.stage {
            Stage::TryTerminal => if c.editors.editor is None && c.editors.visual is None {
                None
            } else {
                Some(Diagnostic::TerminalFallback)
            },
            Stage::TryVisual => Some(Diagnostic::VisualFallback),
            Stage::TryNativeOpen => match c.host {
                HostCapability::TerminalCapable => Some(Diagnostic::NoEditorOpened),
                HostCapability::NativeOnly => Some(Diagnostic::DefaultOpenFailed),
            },
            Stage::Init | Stage::Done => None,
        }
    }
}

/// The launch after one step: only the stage changes.
pub open spec fn after(c: CascadeView, outcome: Option<Outcome>) -> CascadeView {
    CascadeView { stage: next_stage(c, outcome), ..c }
}

impl Cascade {
    /// A launch of `target` that has not begun.
    pub fn new(host: HostCapability, editors: Editors, target: PathBuf) -> (cascade: Cascade)
        ensures
            cascade@ == initial(host, editors@, target),
    {
        Cascade { host, editors, target, stage: Stage::Init }
    }

    /// The stage the launch is at.
    pub fn stage(&self) -> (stage: Stage)
        ensures
            stage == self@.stage,
    {
        self.stage
    }

    /// Whether the launch is over.
    pub fn is_done(&self) -> (done: bool)
        ensures
            done == (self@.stage == Stage::Done),
    {
        self.stage == Stage::Done
    }

    /// The file to open.
    pub fn target(&self) -> (target: &PathBuf)
        ensures
            *target == self@.target,
    {
        &self.target
    }

    /// The program to try now, if the current stage has one.
    pub fn candidate(&self) -> (program: Option<Program>)
        ensures
            program is Some == candidate_of(self@) is Some,
            program is Some ==> program->0@ == candidate_of(self@)->0,
    {
        match self.stage {
            Stage::TryTerminal => match &self.editors.editor {
                Some(name) => Some(Program::Named(name.clone())),
                None => None,
            },
            Stage::TryVisual => match &self.editors.visual {
                Some(name) => Some(Program::Named(name.clone())),
                None => None,
            },
            Stage::TryNativeOpen => Some(Program::NativeOpener),
            Stage::Init => None,
            Stage::Done => None,
        }
    }

    /// Takes one step. `outcome` is how the attempt on `candidate()` went,
    /// `None` where nothing was tried. The result is the line to print before
    /// anything else is tried.
    pub fn step(&mut self, outcome: Option<Outcome>) -> (line: Option<Diagnostic>)
        ensures
            final(self)@ == after(old(self)@, outcome),
            line == diagnostic_of(old(self)@, outcome),
    {
        let tried = match self.stage {
            Stage::TryTerminal => self.editors.editor.is_some(),
            Stage::TryVisual => self.editors.visual.is_some(),
            Stage::TryNativeOpen => true,
            Stage::Init => false,
            Stage::Done => false,
        };
        let ran = tried && match outcome {
            Some(Outcome::Success) => true,
            _ => false,
        };
        let nothing_named = self.editors.editor.is_none() && self.editors.visual.is_none();
        let (next, line) = match self.stage {
            Stage::Init => match self.host {
                HostCapability::TerminalCapable => (Stage::TryTerminal, None),
                HostCapability::NativeOnly => (Stage::TryNativeOpen, None),
            },
            Stage::TryTerminal => if ran {
                (Stage::Done, None)
            } else if nothing_named {
                (Stage::TryVisual, None)
            } else {
                (Stage::TryVisual, Some(Diagnostic::TerminalFallback))
            },
            Stage::TryVisual => if ran {
                (Stage::Done, None)
            } else {
                (Stage::TryNativeOpen, Some(Diagnostic::VisualFallback))
            },
            Stage::TryNativeOpen => if ran {
                (Stage::Done, None)
            } else {
                match self.host {
                    HostCapability::TerminalCapable => (Stage::Done, Some(Diagnostic::NoEditorOpened)),
                    HostCapability::NativeOnly => (Stage::Done, Some(Diagnostic::DefaultOpenFailed)),
                }
            },
            Stage::Done => (Stage::Done, None),
        };
        self.stage = next;
        line
    }
}

/// Begins a launch that tries the native opener alone.
pub fn open_editor(file_path: PathBuf) -> (cascade: Cascade)
    ensures
        cascade@ == initial(
            HostCapability::NativeOnly,
            EditorsView { editor: None, visual: None },
            file_path,
        ),
{
    Cascade::new(HostCapability::NativeOnly, Editors::new(), file_path)
}

/// Begins a launch that tries the terminal editor, then the visual editor,
/// then the native opener. The preferences are taken once, here, and stay as
/// they are until the launch is over.
pub fn open_terminal_editor(editors: Editors, file_path: PathBuf) -> (cascade: Cascade)
    ensures
        cascade@ == initial(HostCapability::TerminalCapable, editors@, file_path),
{
    Cascade::new(HostCapability::TerminalCapable, editors, file_path)
}

/// Begins the launch for editing a template: the native opener alone where
/// the user prefers a visual editor, the whole cascade otherwise.
pub fn edit_file(file_path: PathBuf, prefer_visual: bool, editors: Editors) -> (cascade: Cascade)
    ensures
        prefer_visual ==> cascade@ == initial(
            HostCapability::NativeOnly,
            EditorsView { editor: None, visual: None },
            file_path,
        ),
        !prefer_visual ==> cascade@ == initial(
            HostCapability::TerminalCapable,
            editors@,
            file_path,
        ),
{
    if prefer_visual {
        open_editor(file_path)
    } else {
        open_terminal_editor(editors, file_path)
    }
}

/// How the attempt of each stage ends, should it be made.
#[derive(Debug, Clone, Copy, PartialEq, Eq, Structural)]
pub struct Outcomes {
    pub terminal: Outcome,
    pub visual: Outcome,
    pub native: Outcome,
}

/// The outcome that `script` holds for a stage. The first and the last stage
/// try nothing, so what is read for them is never used; it is the native
/// opener's.
pub open spec fn scripted(stage: Stage, script: Outcomes) -> Outcome {
    match stage {
        Stage::TryTerminal => script.terminal,
        Stage::TryVisual => script.visual,
        Stage::Init | Stage::TryNativeOpen | Stage::Done => script.native,
    }
}

impl Outcomes {
    /// The outcome held for a stage; for a stage that tries nothing, the native
    /// opener's.
    pub fn at(&self, stage: Stage) -> (outcome: Outcome)
        ensures
            outcome == scripted(stage, *self),
    {
        match stage {
            Stage::TryTerminal => self.terminal,
            Stage::TryVisual => self.visual,
            Stage::Init => self.native,
            Stage::TryNativeOpen => self.native,
            Stage::Done => self.native,
        }
    }
}

/// One thing that happened during a launch.
#[derive(Debug, Clone, PartialEq, Eq)]
pub enum Record {
    Attempted(LaunchAttempt),
    Printed(Diagnostic),
}

/// A `Record` with its attempt as a `LaunchAttemptView`.
pub enum RecordView {
    Attempted(LaunchAttemptView),
    Printed(Diagnostic),
}

impl View for Record {
    type V = RecordView;

    open spec fn view(&self) -> RecordView {
        match self {
            Record::Attempted(attempt) => RecordView::Attempted(attempt@),
            Record::Printed(line) => RecordView::Printed(*line),
        }
    }
}

/// The views of a sequence of records.
pub open spec fn records(trace: Seq<Record>) -> Seq<RecordView> {
    trace.map_values(|record: Record| record@)
}

/// What the caller reports at the current stage when attempts end as
/// `script` says: the scripted outcome where there is a program to try.
pub open spec fn observed(c: CascadeView, script: Outcomes) -> Option<Outcome> {
    match candidate_of(c) {
        Some(_) => Some(scripted(c.stage, script)),
        None => None,
    }
}

/// The attempt made at the current stage, if the stage has a program.
pub open spec fn attempted(c: CascadeView, script: Outcomes) -> Seq<RecordView> {
    match candidate_of(c) {
        Some(program) => seq![
            RecordView::Attempted(
                LaunchAttemptView { program, target: c.target, outcome: scripted(c.stage, script) },
            ),
        ],
        None => seq![],
    }
}

/// A printed line as a record, where there is a line.
pub open spec fn printed(line: Option<Diagnostic>) -> Seq<RecordView> {
    match line {
        Some(line) => seq![RecordView::Printed(line)],
        None => seq![],
    }
}

/// How many steps a launch at `stage` has before it.
pub open spec fn steps_left(stage: Stage) -> nat {
    match stage {
        Stage::Init => 4,
        Stage::TryTerminal => 3,
        Stage::TryVisual => 2,
        Stage::TryNativeOpen => 1,
        Stage::Done => 0,
    }
}

/// Everything that happens from `c` on, in order, when attempts end as
/// `script` says: at each stage the attempt, then the line printed on
/// leaving it.
pub open spec fn run(c: CascadeView, script: Outcomes) -> Seq<RecordView>
    decreases steps_left(c.stage),
{
    if c.stage == Stage::Done {
        seq![]
    } else {
        let outcome = observed(c, script);
        attempted(c, script) + printed(diagnostic_of(c, outcome)) + run(after(c, outcome), script)
    }
}

impl Cascade {
    /// Runs the launch to its end against outcomes fixed beforehand, and
    /// returns what a caller would have spawned and printed, in order.
    pub fn replay(self, script: Outcomes) -> (trace: Vec<Record>)
        ensures
            records(trace@) == run(self@, script),
    {
        let mut cascade = self;
        let mut trace: Vec<Record> = Vec::new();
        assert(records(trace@) + run(cascade@, script) =~= run(self@, script));
        while !cascade.is_done()
            invariant
                records(trace@) + run(cascade@, script) == run(self@, script),
            decreases steps_left(cascade@.stage),
        {
            let ghost before = cascade@;
            let ghost so_far = records(trace@);
            let outcome = match cascade.candidate() {
                Some(program) => {
                    let outcome = script.at(cascade.stage());
                    let attempt = LaunchAttempt { program, target: cascade.target().clone(), outcome };
                    proof {
                        assert(trace@.push(Record::Attempted(attempt)).map_values(
                            |record: Record| record@,
                        ) =~= so_far + attempted(before, script));
                    }
                    trace.push(Record::Attempted(attempt));
                    Some(outcome)
                },
                None => None,
            };
            assert(records(trace@) =~= so_far + attempted(before, script));
            let ghost with_attempt = records(trace@);
            if let Some(line) = cascade.step(outcome) {
                proof {
                    assert(trace@.push(Record::Printed(line)).map_values(|record: Record| record@)
                        =~= with_attempt + printed(Some(line)));
                }
                trace.push(Record::Printed(line));
            }
            assert(records(trace@) =~= so_far + attempted(before, script) + printed(
                diagnostic_of(before, outcome),
            ));
            assert(records(trace@) + run(cascade@, script) =~= so_far + run(before, script));
        }
        assert(records(trace@) + run(cascade@, script) =~= records(trace@));
        trace
    }
}

} // verus!
