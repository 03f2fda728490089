//! What holds of every launch, whatever the editors are named and however
//! the attempts end.

use crate::env_var::EditorsView;
use crate::launch::{
    after, attempted, candidate_of, diagnostic_of, initial, next_stage, observed, outcome_of, printed,
    run, scripted, steps_left, CascadeView, Diagnostic, LaunchAttemptView, Outcome, Outcomes,
    ProgramView, RecordView, SpawnResult, Stage,
};
use crate::platform::HostCapability;
use std::path::PathBuf;
use vstd::prelude::*;

verus! {

/// The record of an attempt.
pub open spec fn attempt(program: ProgramView, target: PathBuf, outcome: Outcome) -> RecordView {
    RecordView::Attempted(LaunchAttemptView { program, target, outcome })
}

/// The last part of every launch: the native opener is tried, and a line is
/// printed if it fails.
pub open spec fn native_open(host: HostCapability, target: PathBuf, script: Outcomes) -> Seq<
    RecordView,
> {
    let tried = seq![attempt(ProgramView::NativeOpener, target, script.native)];
    match (script.native, host) {
        (Outcome::Success, _) => tried,
        (Outcome::Failure, HostCapability::TerminalCapable) => tried.push(
            RecordView::Printed(Diagnostic::NoEditorOpened),
        ),
        (Outcome::Failure, HostCapability::NativeOnly) => tried.push(
            RecordView::Printed(Diagnostic::DefaultOpenFailed),
        ),
    }
}

/// The attempts among the records, in order.
pub open spec fn attempts_in(trace: Seq<RecordView>) -> Seq<LaunchAttemptView>
    decreases trace.len(),
{
    if trace.len() == 0 {
        seq![]
    } else {
        let earlier = attempts_in(trace.drop_last());
        match trace.last() {
            RecordView::Attempted(attempt) => earlier.push(attempt),
            RecordView::Printed(_) => earlier,
        }
    }
}

/// A named editor as a list of candidates: one where there is a name.
pub open spec fn listed(name: Option<Seq<char>>) -> Seq<ProgramView> {
    match name {
        Some(name) => seq![ProgramView::Named(name)],
        None => seq![],
    }
}

/// The candidates of a launch in the order in which they are tried: the
/// terminal editor, the visual editor, the native opener; on a host without a
/// terminal, the native opener alone.
pub open spec fn plan(host: HostCapability, editors: EditorsView) -> Seq<ProgramView> {
    match host {
        HostCapability::TerminalCapable => listed(editors.editor) + listed(editors.visual)
            + seq![ProgramView::NativeOpener],
        HostCapability::NativeOnly => seq![ProgramView::NativeOpener],
    }
}

/// On a host without a terminal the native opener is tried once, and one
/// line is printed if it fails. Nothing else happens.
pub proof fn lemma_native_only_host(editors: EditorsView, target: PathBuf, script: Outcomes)
    ensures
        run(initial(HostCapability::NativeOnly, editors, target), script) == native_open(
            HostCapability::NativeOnly,
            target,
            script,
        ),
{
    reveal_with_fuel(run, 3);
    let start = initial(HostCapability::NativeOnly, editors, target);
    assert(run(start, script) =~= native_open(HostCapability::NativeOnly, target, script));
}

/// With a terminal editor named that runs, the launch is that one attempt:
/// nothing else is tried and nothing is printed.
pub proof fn lemma_terminal_editor_runs(editors: EditorsView, target: PathBuf, script: Outcomes)
    requires
        editors.editor is Some,
        script.terminal == Outcome::Success,
    ensures
        run(initial(HostCapability::TerminalCapable, editors, target), script) == seq![
            attempt(ProgramView::Named(editors.editor->0), target, Outcome::Success),
        ],
{
    reveal_with_fuel(run, 3);
    let start = initial(HostCapability::TerminalCapable, editors, target);
    assert(run(start, script) =~= seq![
        attempt(ProgramView::Named(editors.editor->0), target, Outcome::Success),
    ]);
}

/// With only a visual editor named, no terminal editor is tried: one line is
/// printed, then the visual editor is tried, and only if that fails the
/// native opener follows, after a second line. The order is the same for
/// every name and every file.
pub proof fn lemma_only_visual_named(visual: Seq<char>, target: PathBuf, script: Outcomes)
    ensures
        run(
            initial(
                HostCapability::TerminalCapable,
                EditorsView { editor: None, visual: Some(visual) },
                target,
            ),
            script,
        ) == seq![
            RecordView::Printed(Diagnostic::TerminalFallback),
            attempt(ProgramView::Named(visual), target, script.visual),
        ] + match script.visual {
            Outcome::Success => seq![],
            Outcome::Failure => seq![RecordView::Printed(Diagnostic::VisualFallback)] + native_open(
                HostCapability::TerminalCapable,
                target,
                script,
            ),
        },
{
    reveal_with_fuel(run, 5);
    let start = initial(
        HostCapability::TerminalCapable,
        EditorsView { editor: None, visual: Some(visual) },
        target,
    );
    let expected = seq![
        RecordView::Printed(Diagnostic::TerminalFallback),
        attempt(ProgramView::Named(visual), target, script.visual),
    ] + match script.visual {
        Outcome::Success => seq![],
        Outcome::Failure => seq![RecordView::Printed(Diagnostic::VisualFallback)] + native_open(
            HostCapability::TerminalCapable,
            target,
            script,
        ),
    };
    assert(run(start, script) =~= expected);
}

/// With no editor named, exactly one line is printed, then the native opener
/// is tried, once; a last line follows only if it fails.
pub proof fn lemma_nothing_named(target: PathBuf, script: Outcomes)
    ensures
        run(
            initial(
                HostCapability::TerminalCapable,
                EditorsView { editor: None, visual: None },
                target,
            ),
            script,
        ) == seq![RecordView::Printed(Diagnostic::VisualFallback)] + native_open(
            HostCapability::TerminalCapable,
            target,
            script,
        ),
{
    reveal_with_fuel(run, 5);
    let start = initial(
        HostCapability::TerminalCapable,
        EditorsView { editor: None, visual: None },
        target,
    );
    assert(run(start, script) =~= seq![RecordView::Printed(Diagnostic::VisualFallback)]
        + native_open(HostCapability::TerminalCapable, target, script));
}

/// A program that started and exited ends the launch at once and without a
/// line, whatever its exit code.
pub proof fn lemma_exit_code_is_ignored(c: CascadeView, code: Option<i32>)
    requires
        candidate_of(c) is Some,
    ensures
        outcome_of(SpawnResult::Exited(code)) == Outcome::Success,
        next_stage(c, Some(outcome_of(SpawnResult::Exited(code)))) == Stage::Done,
        diagnostic_of(c, Some(outcome_of(SpawnResult::Exited(code)))) is None,
{
}

/// The attempts of two stretches of records are those of the first, then
/// those of the second.
proof fn lemma_attempts_in_concat(first: Seq<RecordView>, second: Seq<RecordView>)
    ensures
        attempts_in(first + second) == attempts_in(first) + attempts_in(second),
    decreases second.len(),
{
    if second.len() == 0 {
        assert(first + second =~= first);
        assert(attempts_in(first) + attempts_in(second) =~= attempts_in(first));
    } else {
        assert((first + second).drop_last() =~= first + second.drop_last());
        assert((first + second).last() == second.last());
        lemma_attempts_in_concat(first, second.drop_last());
        assert(attempts_in(first + second) =~= attempts_in(first) + attempts_in(second));
    }
}

/// The attempts made from `c` on, stage by stage.
spec fn attempts_from(c: CascadeView, script: Outcomes) -> Seq<LaunchAttemptView>
    decreases steps_left(c.stage),
{
    if c.stage == Stage::Done {
        seq![]
    } else {
        let here = match candidate_of(c) {
            Some(program) => seq![
                LaunchAttemptView { program, target: c.target, outcome: scripted(c.stage, script) },
            ],
            None => seq![],
        };
        here + attempts_from(after(c, observed(c, script)), script)
    }
}

/// The attempts in the records of a run are the attempts made stage by stage.
proof fn lemma_attempts_of_run(c: CascadeView, script: Outcomes)
    ensures
        attempts_in(run(c, script)) == attempts_from(c, script),
    decreases steps_left(c.stage),
{
    if c.stage != Stage::Done {
        let outcome = observed(c, script);
        let tried = attempted(c, script);
        let line = printed(diagnostic_of(c, outcome));
        let rest = run(after(c, outcome), script);
        lemma_attempts_of_run(after(c, outcome), script);
        lemma_attempts_in_concat(tried + line, rest);
        lemma_attempts_in_concat(tried, line);
        reveal_with_fuel(attempts_in, 2);
        assert(tried.len() == 1 ==> tried.drop_last() =~= seq![]);
    }
}

/// The attempts of a launch follow the plan from its start: the same
/// programs in the same order, each on the file that was asked for. Every
/// attempt but the last failed, and a launch that stops before the end of
/// the plan stops on a success. No candidate is tried twice.
pub proof fn lemma_attempts_follow_the_plan(
    host: HostCapability,
    editors: EditorsView,
    target: PathBuf,
    script: Outcomes,
)
    ensures
        ({
            let made = attempts_in(run(initial(host, editors, target), script));
            let order = plan(host, editors);
            &&& 1 <= made.len() <= order.len()
            &&& forall|i: int|
                0 <= i < made.len() ==> (#[trigger] made[i]).program == order[i] && made[i].target
                    == target
            &&& forall|i: int|
                0 <= i < made.len() - 1 ==> (#[trigger] made[i]).outcome == Outcome::Failure
            &&& made.len() < order.len() ==> made.last().outcome == Outcome::Success
        }),
{
    let start = initial(host, editors, target);
    lemma_attempts_of_run(start, script);
    reveal_with_fuel(attempts_from, 5);
}

/// Two launches of the same file with the same preferences try the same
/// programs in the same order, however their attempts end: as far as both
/// go, they agree.
pub proof fn lemma_attempt_order_is_fixed(
    host: HostCapability,
    editors: EditorsView,
    target: PathBuf,
    first: Outcomes,
    second: Outcomes,
)
    ensures
        ({
            let once = attempts_in(run(initial(host, editors, target), first));
            let again = attempts_in(run(initial(host, editors, target), second));
            &&& first == second ==> once == again
            &&& forall|i: int|
                0 <= i < once.len() && i < again.len() ==> (#[trigger] once[i]).program
                    == again[i].program && once[i].target == again[i].target
        }),
{
    lemma_attempts_follow_the_plan(host, editors, target, first);
    lemma_attempts_follow_the_plan(host, editors, target, second);
    let once = attempts_in(run(initial(host, editors, target), first));
    let again = attempts_in(run(initial(host, editors, target), second));
    assert forall|i: int| 0 <= i < once.len() && i < again.len() implies (#[trigger] once[i]).program
        == again[i].program && once[i].target == again[i].target by {
        assert(again[i].program == plan(host, editors)[i]);
    }
}

} // verus!
