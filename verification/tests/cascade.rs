use rtm::env_var::{get_editor_env_var, Editors};
use rtm::launch::{
    edit_file, open_editor, open_terminal_editor, Cascade, Diagnostic, LaunchAttempt, Outcome,
    Outcomes, Program, Record, SpawnResult, Stage,
};
use rtm::platform::{invocation, HostCapability, Invocation, Platform};
use std::cell::RefCell;
use std::path::PathBuf;

/// What a driven launch spawned and printed.
struct Seen {
    spawned: Vec<Invocation>,
    printed: Vec<String>,
    stages: Vec<Stage>,
}

/// Runs a launch as a caller would, with `spawn` in place of the operating system.
fn drive(mut cascade: Cascade, spawn: &dyn Fn(&Invocation) -> SpawnResult) -> Seen {
    let mut seen = Seen { spawned: Vec::new(), printed: Vec::new(), stages: vec![cascade.stage()] };
    while !cascade.is_done() {
        let outcome = match cascade.candidate() {
            Some(program) => {
                let command = invocation(&program, Platform::Linux, cascade.target());
                let result = spawn(&command);
                seen.spawned.push(command);
                Some(result.outcome())
            }
            None => None,
        };
        if let Some(line) = cascade.step(outcome) {
            seen.printed.push(line.message().to_string());
        }
        seen.stages.push(cascade.stage());
    }
    seen
}

fn note() -> PathBuf {
    PathBuf::from("/tmp/note.md")
}

fn programs(seen: &Seen) -> Vec<String> {
    seen.spawned.iter().map(|command| command.program.clone()).collect()
}

fn attempted(name: &str, outcome: Outcome) -> Record {
    Record::Attempted(LaunchAttempt {
        program: Program::Named(name.to_string()),
        target: note(),
        outcome,
    })
}

fn opened(outcome: Outcome) -> Record {
    Record::Attempted(LaunchAttempt { program: Program::NativeOpener, target: note(), outcome })
}

const TERMINAL_LINE: &str =
    "Error opening terminal based editor set on $EDITOR env var, fallbacking to visual ones.";
const VISUAL_LINE: &str = "Failed to open $VISUAL editor, fallbacking to system default.";
const LAST_LINE: &str = "Couldn't open any of your default editors.";
const DEFAULT_LINE: &str = "Failed to open file on default text editor";

#[test]
fn diagnostic_messages() {
    assert_eq!(Diagnostic::TerminalFallback.message(), TERMINAL_LINE);
    assert_eq!(Diagnostic::VisualFallback.message(), VISUAL_LINE);
    assert_eq!(Diagnostic::NoEditorOpened.message(), LAST_LINE);
    assert_eq!(Diagnostic::DefaultOpenFailed.message(), DEFAULT_LINE);
}

#[test]
fn terminal_editor_runs_and_the_cascade_stops() {
    let editors = get_editor_env_var(None, Some("vim".to_string()));
    let cascade = open_terminal_editor(editors, note());
    let seen = drive(cascade, &|_| SpawnResult::Exited(Some(0)));
    assert_eq!(seen.spawned.len(), 1);
    assert_eq!(seen.spawned[0].program, "vim");
    assert_eq!(seen.spawned[0].args, Vec::<String>::new());
    assert_eq!(seen.spawned[0].target, PathBuf::from("/tmp/note.md"));
    assert_eq!(seen.printed, Vec::<String>::new());
    assert_eq!(seen.stages, vec![Stage::Init, Stage::TryTerminal, Stage::Done]);
}

#[test]
fn missing_terminal_editor_falls_back_to_the_visual_one() {
    let editors = get_editor_env_var(Some("code".to_string()), Some("doesnotexist123".to_string()));
    let cascade = open_terminal_editor(editors, note());
    let seen = drive(cascade, &|command| {
        if command.program == "doesnotexist123" {
            SpawnResult::NotStarted
        } else {
            SpawnResult::Exited(Some(0))
        }
    });
    assert_eq!(programs(&seen), vec!["doesnotexist123".to_string(), "code".to_string()]);
    assert_eq!(seen.spawned[1].args, Vec::<String>::new());
    assert_eq!(seen.spawned[1].target, note());
    assert_eq!(seen.printed, vec![TERMINAL_LINE.to_string()]);
    assert_eq!(seen.stages, vec![Stage::Init, Stage::TryTerminal, Stage::TryVisual, Stage::Done]);
}

#[test]
fn only_visual_set_skips_the_terminal_attempt() {
    let editors = get_editor_env_var(Some("code".to_string()), None);
    let cascade = open_terminal_editor(editors, note());
    let seen = drive(cascade, &|_| SpawnResult::Exited(Some(0)));
    assert_eq!(programs(&seen), vec!["code".to_string()]);
    assert_eq!(seen.printed, vec![TERMINAL_LINE.to_string()]);
}

#[test]
fn only_visual_set_and_failing_falls_back_to_the_native_opener() {
    let editors = get_editor_env_var(Some("code".to_string()), None);
    let trace = open_terminal_editor(editors, note()).replay(Outcomes {
        terminal: Outcome::Success,
        visual: Outcome::Failure,
        native: Outcome::Success,
    });
    assert_eq!(
        trace,
        vec![
            Record::Printed(Diagnostic::TerminalFallback),
            attempted("code", Outcome::Failure),
            Record::Printed(Diagnostic::VisualFallback),
            opened(Outcome::Success),
        ]
    );
}

#[test]
fn the_order_does_not_depend_on_the_names() {
    let outcomes =
        Outcomes { terminal: Outcome::Failure, visual: Outcome::Failure, native: Outcome::Failure };
    for name in ["code", "vim", "", "xdg-open", "a b c"] {
        let editors = get_editor_env_var(Some(name.to_string()), None);
        let trace = open_terminal_editor(editors, note()).replay(outcomes);
        assert_eq!(
            trace,
            vec![
                Record::Printed(Diagnostic::TerminalFallback),
                attempted(name, Outcome::Failure),
                Record::Printed(Diagnostic::VisualFallback),
                opened(Outcome::Failure),
                Record::Printed(Diagnostic::NoEditorOpened),
            ]
        );
    }
}

#[test]
fn nothing_set_prints_one_line_and_opens_natively_once() {
    let cascade = open_terminal_editor(Editors::new(), note());
    let printed_before: RefCell<Vec<usize>> = RefCell::new(Vec::new());
    let seen = drive(cascade, &|command| {
        printed_before.borrow_mut().push(command.args.len());
        SpawnResult::Exited(Some(0))
    });
    assert_eq!(programs(&seen), vec!["xdg-open".to_string()]);
    assert_eq!(seen.printed, vec![VISUAL_LINE.to_string()]);
    assert_eq!(printed_before.borrow().len(), 1);

    let trace = open_terminal_editor(Editors::new(), note()).replay(Outcomes {
        terminal: Outcome::Success,
        visual: Outcome::Success,
        native: Outcome::Success,
    });
    assert_eq!(
        trace,
        vec![Record::Printed(Diagnostic::VisualFallback), opened(Outcome::Success)]
    );
}

#[test]
fn nothing_set_and_the_native_opener_fails() {
    let seen = drive(open_terminal_editor(Editors::new(), note()), &|_| SpawnResult::NotStarted);
    assert_eq!(programs(&seen), vec!["xdg-open".to_string()]);
    assert_eq!(seen.printed, vec![VISUAL_LINE.to_string(), LAST_LINE.to_string()]);
    assert_eq!(
        seen.stages,
        vec![Stage::Init, Stage::TryTerminal, Stage::TryVisual, Stage::TryNativeOpen, Stage::Done]
    );
}

#[test]
fn a_nonzero_exit_is_a_success() {
    assert_eq!(SpawnResult::Exited(Some(0)).outcome(), Outcome::Success);
    assert_eq!(SpawnResult::Exited(Some(1)).outcome(), Outcome::Success);
    assert_eq!(SpawnResult::Exited(Some(-1)).outcome(), Outcome::Success);
    assert_eq!(SpawnResult::Exited(Some(i32::MIN)).outcome(), Outcome::Success);
    assert_eq!(SpawnResult::Exited(None).outcome(), Outcome::Success);
    assert_eq!(SpawnResult::NotStarted.outcome(), Outcome::Failure);

    let editors = get_editor_env_var(Some("code".to_string()), Some("vim".to_string()));
    let seen = drive(open_terminal_editor(editors, note()), &|_| SpawnResult::Exited(Some(2)));
    assert_eq!(programs(&seen), vec!["vim".to_string()]);
    assert_eq!(seen.printed, Vec::<String>::new());
}

#[test]
fn launching_twice_tries_the_same_programs_in_the_same_order() {
    let editors = get_editor_env_var(Some("code".to_string()), Some("vim".to_string()));
    let once = drive(open_terminal_editor(editors.clone(), note()), &|_| SpawnResult::NotStarted);
    let again = drive(open_terminal_editor(editors.clone(), note()), &|_| SpawnResult::NotStarted);
    assert_eq!(once.spawned, again.spawned);
    assert_eq!(once.printed, again.printed);
    assert_eq!(
        programs(&once),
        vec!["vim".to_string(), "code".to_string(), "xdg-open".to_string()]
    );

    let shorter = drive(open_terminal_editor(editors, note()), &|command| {
        if command.program == "code" {
            SpawnResult::Exited(Some(0))
        } else {
            SpawnResult::NotStarted
        }
    });
    assert_eq!(shorter.spawned[..], once.spawned[..2]);
}

#[test]
fn every_candidate_fails() {
    let editors = get_editor_env_var(Some("code".to_string()), Some("vim".to_string()));
    let seen = drive(open_terminal_editor(editors, note()), &|_| SpawnResult::NotStarted);
    assert_eq!(
        programs(&seen),
        vec!["vim".to_string(), "code".to_string(), "xdg-open".to_string()]
    );
    for command in &seen.spawned {
        assert_eq!(command.target, note());
    }
    assert_eq!(
        seen.printed,
        vec![TERMINAL_LINE.to_string(), VISUAL_LINE.to_string(), LAST_LINE.to_string()]
    );
}

#[test]
fn terminal_editor_fails_and_no_visual_editor_is_set() {
    let editors = get_editor_env_var(None, Some("vim".to_string()));
    let trace = open_terminal_editor(editors, note()).replay(Outcomes {
        terminal: Outcome::Failure,
        visual: Outcome::Success,
        native: Outcome::Success,
    });
    assert_eq!(
        trace,
        vec![
            attempted("vim", Outcome::Failure),
            Record::Printed(Diagnostic::TerminalFallback),
            Record::Printed(Diagnostic::VisualFallback),
            opened(Outcome::Success),
        ]
    );
}

#[test]
fn a_host_without_a_terminal_opens_natively_and_nothing_else() {
    let editors = get_editor_env_var(Some("code".to_string()), Some("vim".to_string()));
    let cascade = Cascade::new(HostCapability::NativeOnly, editors, note());
    let seen = drive(cascade, &|_| SpawnResult::Exited(Some(0)));
    assert_eq!(programs(&seen), vec!["xdg-open".to_string()]);
    assert_eq!(seen.printed, Vec::<String>::new());
    assert_eq!(seen.stages, vec![Stage::Init, Stage::TryNativeOpen, Stage::Done]);
}

#[test]
fn a_host_without_a_terminal_prints_one_line_on_failure() {
    let seen = drive(open_editor(note()), &|_| SpawnResult::NotStarted);
    assert_eq!(seen.spawned.len(), 1);
    assert_eq!(seen.printed, vec![DEFAULT_LINE.to_string()]);
}

#[test]
fn replay_agrees_with_a_driven_launch() {
    let editors = get_editor_env_var(Some("code".to_string()), Some("vim".to_string()));
    let trace = open_terminal_editor(editors, note()).replay(Outcomes {
        terminal: Outcome::Failure,
        visual: Outcome::Failure,
        native: Outcome::Failure,
    });
    assert_eq!(
        trace,
        vec![
            attempted("vim", Outcome::Failure),
            Record::Printed(Diagnostic::TerminalFallback),
            attempted("code", Outcome::Failure),
            Record::Printed(Diagnostic::VisualFallback),
            opened(Outcome::Failure),
            Record::Printed(Diagnostic::NoEditorOpened),
        ]
    );
}

#[test]
fn replay_stops_at_the_first_success() {
    let editors = get_editor_env_var(Some("code".to_string()), Some("vim".to_string()));
    let trace = open_terminal_editor(editors, note()).replay(Outcomes {
        terminal: Outcome::Success,
        visual: Outcome::Failure,
        native: Outcome::Failure,
    });
    assert_eq!(trace, vec![attempted("vim", Outcome::Success)]);
}

#[test]
fn a_new_launch_has_not_begun() {
    let cascade = Cascade::new(HostCapability::TerminalCapable, Editors::new(), note());
    assert_eq!(cascade.stage(), Stage::Init);
    assert!(!cascade.is_done());
    assert_eq!(cascade.candidate(), None);
    assert_eq!(cascade.target(), &note());
}

#[test]
fn the_first_step_tries_nothing_and_prints_nothing() {
    let editors = get_editor_env_var(None, Some("vim".to_string()));
    let mut cascade = open_terminal_editor(editors, note());
    assert_eq!(cascade.step(Some(Outcome::Success)), None);
    assert_eq!(cascade.stage(), Stage::TryTerminal);
    assert_eq!(cascade.candidate(), Some(Program::Named("vim".to_string())));
}

#[test]
fn an_outcome_without_an_attempt_counts_for_nothing() {
    let editors = get_editor_env_var(Some("code".to_string()), None);
    let mut cascade = open_terminal_editor(editors, note());
    cascade.step(None);
    assert_eq!(cascade.candidate(), None);
    assert_eq!(cascade.step(Some(Outcome::Success)), Some(Diagnostic::TerminalFallback));
    assert_eq!(cascade.stage(), Stage::TryVisual);
    assert_eq!(cascade.candidate(), Some(Program::Named("code".to_string())));
}

#[test]
fn an_attempt_without_an_outcome_counts_as_failed() {
    let editors = get_editor_env_var(None, Some("vim".to_string()));
    let mut cascade = open_terminal_editor(editors, note());
    cascade.step(None);
    assert_eq!(cascade.step(None), Some(Diagnostic::TerminalFallback));
    assert_eq!(cascade.step(None), Some(Diagnostic::VisualFallback));
    assert_eq!(cascade.candidate(), Some(Program::NativeOpener));
    assert_eq!(cascade.step(None), Some(Diagnostic::NoEditorOpened));
    assert!(cascade.is_done());
}

#[test]
fn a_finished_launch_stays_finished() {
    let mut cascade = open_editor(note());
    cascade.step(None);
    assert_eq!(cascade.step(Some(Outcome::Success)), None);
    assert!(cascade.is_done());
    assert_eq!(cascade.candidate(), None);
    assert_eq!(cascade.step(Some(Outcome::Failure)), None);
    assert_eq!(cascade.step(None), None);
    assert_eq!(cascade.stage(), Stage::Done);
}

#[test]
fn the_target_is_not_looked_at() {
    let missing = PathBuf::from("/no/such/dir/no-such-file");
    let editors = get_editor_env_var(None, Some("vim".to_string()));
    let trace = open_terminal_editor(editors, missing.clone()).replay(Outcomes {
        terminal: Outcome::Success,
        visual: Outcome::Success,
        native: Outcome::Success,
    });
    assert_eq!(
        trace,
        vec![Record::Attempted(LaunchAttempt {
            program: Program::Named("vim".to_string()),
            target: missing,
            outcome: Outcome::Success,
        })]
    );
}

#[test]
fn outcomes_by_stage() {
    let outcomes =
        Outcomes { terminal: Outcome::Failure, visual: Outcome::Success, native: Outcome::Failure };
    assert_eq!(outcomes.at(Stage::TryTerminal), Outcome::Failure);
    assert_eq!(outcomes.at(Stage::TryVisual), Outcome::Success);
    assert_eq!(outcomes.at(Stage::TryNativeOpen), Outcome::Failure);
}

#[test]
fn open_editor_begins_a_native_launch() {
    let cascade = open_editor(note());
    assert_eq!(cascade, Cascade::new(HostCapability::NativeOnly, Editors::new(), note()));
}

#[test]
fn open_terminal_editor_begins_the_whole_cascade() {
    let editors = get_editor_env_var(Some("code".to_string()), Some("vim".to_string()));
    let cascade = open_terminal_editor(editors.clone(), note());
    assert_eq!(cascade, Cascade::new(HostCapability::TerminalCapable, editors, note()));
}

#[test]
fn edit_file_with_visual_preferred_opens_natively() {
    let editors = get_editor_env_var(Some("code".to_string()), Some("vim".to_string()));
    let seen = drive(edit_file(note(), true, editors), &|_| SpawnResult::NotStarted);
    assert_eq!(programs(&seen), vec!["xdg-open".to_string()]);
    assert_eq!(seen.printed, vec![DEFAULT_LINE.to_string()]);
}

#[test]
fn edit_file_without_a_preference_runs_the_cascade() {
    let editors = get_editor_env_var(Some("code".to_string()), Some("vim".to_string()));
    let cascade = edit_file(note(), false, editors.clone());
    assert_eq!(cascade, open_terminal_editor(editors, note()));
    let seen = drive(cascade, &|_| SpawnResult::Exited(None));
    assert_eq!(programs(&seen), vec!["vim".to_string()]);
}
