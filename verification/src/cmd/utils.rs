//! Descriptions of the processes to run, and the small decisions around
//! them: whether a probed command is there, whether an answer confirms, and
//! which shell the user works in.

use crate::cmd::drain::{
    drain_emissions, drain_outcome, drain_run, drain_start, outcome_view, Drain, DrainEvent,
    Emission,
};
use crate::cmd::error::VenvError;
use crate::notice::{Notice, NoticeView, Tone};
use crate::platform::Platform;
use crate::text::{texts, trim, trimmed};
use vstd::prelude::*;

verus! {

/// Where the output of a process goes.
#[derive(Clone, Copy, Debug, PartialEq, Eq, Structural)]
pub enum Stdio {
    /// Captured through pipes, to be read line by line.
    Piped,
    /// Thrown away.
    Null,
    /// Shared with the caller's terminal.
    Inherit,
}

/// A process to run: the program, its arguments, and where its output goes.
#[derive(Clone, Debug, PartialEq, Eq)]
pub struct Invocation {
    pub program: String,
    pub args: Vec<String>,
    pub stdio: Stdio,
}

/// The mathematical value of an [`Invocation`].
pub struct InvocationView {
    pub program: Seq<char>,
    pub args: Seq<Seq<char>>,
    pub stdio: Stdio,
}

impl View for Invocation {
    type V = InvocationView;

    open spec fn view(&self) -> InvocationView {
        InvocationView { program: self.program@, args: texts(self.args@), stdio: self.stdio }
    }
}

/// The character sequences of a list of string slices, in order.
pub open spec fn slices(v: Seq<&str>) -> Seq<Seq<char>> {
    Seq::new(v.len(), |i: int| v[i]@)
}

/// What became of a process that was to run to its end.
#[derive(Clone, Debug, PartialEq, Eq)]
pub enum Completion {
    /// It ran and ended; `success` tells whether its status was a success.
    Exited { success: bool },
    /// It could not be started or waited for; holds the cause.
    Failed(String),
}

/// The mathematical value of a [`Completion`].
pub enum CompletionView {
    Exited { success: bool },
    Failed(Seq<char>),
}

impl View for Completion {
    type V = CompletionView;

    open spec fn view(&self) -> CompletionView {
        match self {
            Completion::Exited { success } => CompletionView::Exited { success: *success },
            Completion::Failed(cause) => CompletionView::Failed(cause@),
        }
    }
}

/// Copies string slices into owned strings.
fn owned(args: &[&str]) -> (copy: Vec<String>)
    ensures
        texts(copy@) == slices(args@),
{
    let mut copy: Vec<String> = Vec::new();
    let mut i: usize = 0;
    while i < args.len()
        invariant
            i <= args.len(),
            copy@.len() == i,
            forall|k: int| 0 <= k < i ==> copy@[k]@ == args@[k]@,
        decreases args.len() - i,
    {
        copy.push(String::from_str(args[i]));
        i += 1;
    }
    assert(texts(copy@) =~= slices(args@));
    copy
}

/// The process that probes whether a command is installed: the command with
/// one argument, its output thrown away.
pub fn probe(cmd: &str, arg: &str) -> (invocation: Invocation)
    ensures
        invocation@ == (InvocationView { program: cmd@, args: seq![arg@], stdio: Stdio::Null }),
{
    let mut args: Vec<String> = Vec::new();
    args.push(String::from_str(arg));
    assert(texts(args@) =~= seq![arg@]);
    Invocation { program: String::from_str(cmd), args, stdio: Stdio::Null }
}

/// Whether the probed command is available: it is exactly when the probe
/// ran and ended with a success status. A probe that could not be started
/// means that the command is not there.
pub fn is_command_available(completion: &Completion) -> (available: bool)
    ensures
        available == (completion@ == CompletionView::Exited { success: true }),
{
    match completion {
        Completion::Exited { success } => *success,
        Completion::Failed(_) => false,
    }
}

/// The process that runs `cmd` with `args`, its output captured through
/// pipes.
pub fn create_child_cmd(cmd: &str, args: &[&str]) -> (invocation: Invocation)
    ensures
        invocation@ == (InvocationView {
            program: cmd@,
            args: slices(args@),
            stdio: Stdio::Piped,
        }),
{
    Invocation { program: String::from_str(cmd), args: owned(args), stdio: Stdio::Piped }
}

/// The interactive shell process: `cmd` with `args`, sharing the terminal of
/// the caller.
pub fn activate_venv_shell(cmd: &str, args: Vec<String>) -> (invocation: Invocation)
    ensures
        invocation@ == (InvocationView {
            program: cmd@,
            args: texts(args@),
            stdio: Stdio::Inherit,
        }),
{
    Invocation { program: String::from_str(cmd), args, stdio: Stdio::Inherit }
}

/// Whether `answer` agrees to go on: it does when it is `y`, white space
/// around it set aside.
pub open spec fn confirms(answer: Seq<char>) -> bool {
    trimmed(answer) == seq!['y']
}

/// The question put to the user before something is destroyed.
pub fn confirm_prompt() -> (notice: Notice)
    ensures
        notice@ == (NoticeView { tone: Tone::Info, text: "Do you want to continue? (y/n): "@ }),
{
    Notice::new(Tone::Info, "Do you want to continue? (y/n): ")
}

/// Whether the line that the user typed agrees to go on.
pub fn confirm(answer: &str) -> (agreed: bool)
    ensures
        agreed == confirms(answer@),
{
    let reply = trim(answer);
    if reply.unicode_len() == 1 {
        let agreed = reply.get_char(0) == 'y';
        assert(agreed ==> reply@ =~= seq!['y']);
        agreed
    } else {
        false
    }
}

/// What a whole run of a process came to.
#[derive(Clone, Debug, PartialEq, Eq)]
pub struct DrainReport {
    /// Everything that was to be shown, in order.
    pub emissions: Vec<Emission>,
    /// How the run ended; `None` where the events stop before both streams
    /// and the process have come to their end.
    pub outcome: Option<Result<(), VenvError>>,
}

/// Follows the run of one process through the events that were recorded of
/// it, from its start: collects what is to be shown and says how the run
/// ended.
pub fn run_command(events: &Vec<DrainEvent>) -> (report: DrainReport)
    ensures
        report.emissions.deep_view() == drain_emissions(events.deep_view()),
        outcome_view(report.outcome) == drain_outcome(
            drain_run(drain_start(), events.deep_view()),
        ),
{
    let mut drain = Drain::new();
    let mut emissions: Vec<Emission> = Vec::new();
    let mut i: usize = 0;
    assert(events.deep_view().take(0) =~= Seq::empty());
    assert(emissions.deep_view() =~= Seq::empty());
    while i < events.len()
        invariant
            i <= events.len(),
            drain@ == drain_run(drain_start(), events.deep_view().take(i as int)),
            emissions.deep_view() == drain_emissions(events.deep_view().take(i as int)),
        decreases events.len() - i,
    {
        let ghost shown = emissions.deep_view();
        proof {
            let all = events.deep_view();
            assert(all.take(i + 1).drop_last() =~= all.take(i as int));
            assert(all.take(i + 1).last() == events@[i as int]@);
        }
        match drain.step(&events[i]) {
            Some(emission) => {
                emissions.push(emission);
                assert(emissions.deep_view() =~= shown.push(emission@));
            },
            None => {},
        }
        i += 1;
    }
    assert(events.deep_view().take(events.len() as int) =~= events.deep_view());
    DrainReport { emissions, outcome: drain.outcome() }
}

/// The shell that the user works in, as far as it is known: PowerShell on
/// Windows; elsewhere the one that the environment names, and none where it
/// names none.
pub open spec fn parent_shell(platform: Platform, shell_env: Option<Seq<char>>) -> Option<
    Seq<char>,
> {
    match platform {
        Platform::Windows => Some("pwsh"@),
        Platform::Posix => shell_env,
    }
}

/// The shell that the user works in: PowerShell on Windows, elsewhere the
/// one that the environment names in `SHELL`, handed in as `shell_env`.
/// Where `SHELL` is not set, no shell is known.
pub fn get_parent_shell(platform: Platform, shell_env: Option<String>) -> (shell: Option<String>)
    ensures
        shell.deep_view() == parent_shell(platform, shell_env.deep_view()),
{
    match platform {
        Platform::Windows => Some(String::from_str("pwsh")),
        Platform::Posix => shell_env,
    }
}

} // verus!
