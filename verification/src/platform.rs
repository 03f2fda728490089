//! What differs from one operating system to the next: whether an editor can
//! take over the terminal, and which command opens a file with its default
//! application.

use crate::launch::{Program, ProgramView};
use std::path::PathBuf;
use vstd::prelude::*;

verus! {

/// The operating system the program runs on.
#[derive(Debug, Clone, Copy, PartialEq, Eq, Structural)]
pub enum Platform {
    Linux,
    MacOs,
    Windows,
}

/// Whether the host has a terminal in which an editor can run, apart from its
/// own way of opening a file with the default application.
#[derive(Debug, Clone, Copy, PartialEq, Eq, Structural)]
pub enum HostCapability {
    /// Editors named by the user are tried before the native opener.
    TerminalCapable,
    /// Only the native opener is tried.
    NativeOnly,
}

/// A command line: `program`, then `args`, then `target` as the last
/// argument. It is meant to be run directly, with no shell in between, so a
/// program name with spaces in it is still one name.
#[derive(Debug, Clone, PartialEq, Eq)]
pub struct Invocation {
    pub program: String,
    pub args: Vec<String>,
    pub target: PathBuf,
}

/// What an `Invocation` holds, with its strings as texts.
pub struct InvocationView {
    pub program: Seq<char>,
    pub args: Seq<Seq<char>>,
    pub target: PathBuf,
}

impl View for Invocation {
    type V = InvocationView;

    open spec fn view(&self) -> InvocationView {
        InvocationView {
            program: self.program@,
            args: self.args@.map_values(|arg: String| arg@),
            target: self.target,
        }
    }
}

/// The capability of each platform: only Linux sets a terminal editor apart
/// from opening a file with its default application.
pub open spec fn capability_of(platform: Platform) -> HostCapability {
    match platform {
        Platform::Linux => HostCapability::TerminalCapable,
        Platform::MacOs | Platform::Windows => HostCapability::NativeOnly,
    }
}

/// The program that opens a file with its default application.
pub open spec fn native_program(platform: Platform) -> Seq<char> {
    match platform {
        Platform::Linux => "xdg-open"@,
        Platform::MacOs => "open"@,
        Platform::Windows => "cmd"@,
    }
}

/// The arguments that the native opener takes before the file.
pub open spec fn native_args(platform: Platform) -> Seq<Seq<char>> {
    match platform {
        Platform::Linux | Platform::MacOs => seq![],
        Platform::Windows => seq!["/c"@, "start"@],
    }
}

/// The command line that runs `program` on `target`: a named editor gets the
/// target as its only argument, the native opener is the platform's own.
pub open spec fn invocation_of(
    program: ProgramView,
    platform: Platform,
    target: PathBuf,
) -> InvocationView {
    match program {
        ProgramView::Named(name) => InvocationView { program: name, args: seq![], target },
        ProgramView::NativeOpener => InvocationView {
            program: native_program(platform),
            args: native_args(platform),
            target,
        },
    }
}

impl Platform {
    /// Whether this platform runs the whole cascade or the native opener alone.
    pub fn host_capability(&self) -> (host: HostCapability)
        ensures
            host == capability_of(*self),
    {
        match self {
            Platform::Linux => HostCapability::TerminalCapable,
            Platform::MacOs => HostCapability::NativeOnly,
            Platform::Windows => HostCapability::NativeOnly,
        }
    }
}

/// Builds the command line for one attempt.
pub fn invocation(program: &Program, platform: Platform, target: &PathBuf) -> (command: Invocation)
    ensures
        command@ == invocation_of(program@, platform, *target),
{
    let mut args: Vec<String> = Vec::new();
    let name = match program {
        Program::Named(name) => name.clone(),
        Program::NativeOpener => match platform {
            Platform::Linux => "xdg-open".to_owned(),
            Platform::MacOs => "open".to_owned(),
            Platform::Windows => {
                args.push("/c".to_owned());
                args.push("start".to_owned());
                "cmd".to_owned()
            },
        },
    };
    let command = Invocation { program: name, args, target: target.clone() };
    assert(command@.args =~= invocation_of(program@, platform, *target).args);
    command
}

} // verus!
