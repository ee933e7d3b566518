//! Activating an environment: handing the terminal to a shell that has
//! sourced the environment's activation script.
//!
//! The caller performs what [`ActivateFlow::pending`] asks for and reports
//! how it went with [`ActivateFlow::step`], until the flow asks to finish.

use crate::cmd::utils::{
    activate_venv_shell, Completion, CompletionView, Invocation, InvocationView, Stdio,
};
use crate::cmd::venvmgr::{valid_name, Venv, VenvView};
use crate::notice::{Notice, NoticeView, Tone};
use crate::platform::{activation_script, Platform};
use crate::text::texts;
use vstd::prelude::*;

verus! {

/// What an activation came to.
#[derive(Clone, Debug, PartialEq, Eq)]
pub enum ActivateOutcome {
    /// There is no such environment; no shell was started.
    NotFound,
    /// The shell ran and the user has left it. Nothing is known of what went
    /// on inside.
    Left,
    /// No shell was started, because none is known or because it could not
    /// be started; holds the cause.
    ShellFailed(String),
}

/// The mathematical value of an [`ActivateOutcome`].
pub enum ActivateOutcomeView {
    NotFound,
    Left,
    ShellFailed(Seq<char>),
}

impl View for ActivateOutcome {
    type V = ActivateOutcomeView;

    open spec fn view(&self) -> ActivateOutcomeView {
        match self {
            ActivateOutcome::NotFound => ActivateOutcomeView::NotFound,
            ActivateOutcome::Left => ActivateOutcomeView::Left,
            ActivateOutcome::ShellFailed(cause) => ActivateOutcomeView::ShellFailed(cause@),
        }
    }
}

/// How far an activation has come.
#[derive(Clone, Debug, PartialEq, Eq)]
pub enum ActivateStage {
    /// It is about to be found out whether the activation script is there.
    Checking,
    /// The shell is about to be started.
    Launching { shell: String },
    /// Nothing is left to do.
    Done(ActivateOutcome),
}

/// The mathematical value of an [`ActivateStage`].
pub enum ActivateStageView {
    Checking,
    Launching { shell: Seq<char> },
    Done(ActivateOutcomeView),
}

impl View for ActivateStage {
    type V = ActivateStageView;

    open spec fn view(&self) -> ActivateStageView {
        match self {
            ActivateStage::Checking => ActivateStageView::Checking,
            ActivateStage::Launching { shell } => ActivateStageView::Launching { shell: shell@ },
            ActivateStage::Done(outcome) => ActivateStageView::Done(outcome@),
        }
    }
}

/// How what the flow asked for went.
#[derive(Clone, Debug, PartialEq, Eq)]
pub enum ActivateEvent {
    /// Whether the activation script is there.
    Found(bool),
    /// What became of the shell.
    Launched(Completion),
}

/// The mathematical value of an [`ActivateEvent`].
pub enum ActivateEventView {
    Found(bool),
    Launched(CompletionView),
}

impl View for ActivateEvent {
    type V = ActivateEventView;

    open spec fn view(&self) -> ActivateEventView {
        match self {
            ActivateEvent::Found(found) => ActivateEventView::Found(*found),
            ActivateEvent::Launched(completion) => ActivateEventView::Launched(completion@),
        }
    }
}

/// What the caller is to do next.
#[derive(Clone, Debug, PartialEq, Eq)]
pub enum ActivateAction {
    /// Show the status line and find out whether `script` is there.
    Check { notice: Notice, script: String },
    /// Start the shell and wait until the user leaves it.
    Launch(Invocation),
    /// Show the status line, if there is one, and stop.
    Finish { notice: Option<Notice>, outcome: ActivateOutcome },
}

/// The mathematical value of an [`ActivateAction`].
pub enum ActivateActionView {
    Check { notice: NoticeView, script: Seq<char> },
    Launch(InvocationView),
    Finish { notice: Option<NoticeView>, outcome: ActivateOutcomeView },
}

impl View for ActivateAction {
    type V = ActivateActionView;

    open spec fn view(&self) -> ActivateActionView {
        match self {
            ActivateAction::Check { notice, script } => ActivateActionView::Check {
                notice: notice@,
                script: script@,
            },
            ActivateAction::Launch(invocation) => ActivateActionView::Launch(invocation@),
            ActivateAction::Finish { notice, outcome } => ActivateActionView::Finish {
                notice: notice.deep_view(),
                outcome: outcome@,
            },
        }
    }
}

/// The activation of one environment, under way.
#[derive(Debug, PartialEq, Eq)]
pub struct ActivateFlow {
    stage: ActivateStage,
    platform: Platform,
    root: String,
    name: String,
    shell: Option<String>,
}

/// The mathematical value of an [`ActivateFlow`].
pub struct ActivateFlowView {
    pub stage: ActivateStageView,
    pub platform: Platform,
    /// The environments' root.
    pub root: Seq<char>,
    pub name: Seq<char>,
    /// The shell that the user works in; `None` where none is known.
    pub shell: Option<Seq<char>>,
}

impl View for ActivateFlow {
    type V = ActivateFlowView;

    closed spec fn view(&self) -> ActivateFlowView {
        ActivateFlowView {
            stage: self.stage@,
            platform: self.platform,
            root: self.root@,
            name: self.name@,
            shell: self.shell.deep_view(),
        }
    }
}

/// The flow at its beginning, for the environment `venv` under `root` and
/// the user's shell `shell`, as far as one is known.
pub open spec fn activate_start(
    venv: VenvView,
    root: Seq<char>,
    platform: Platform,
    shell: Option<Seq<char>>,
) -> ActivateFlowView {
    ActivateFlowView { stage: ActivateStageView::Checking, platform, root, name: venv.name, shell }
}

/// The arguments with which the shell is started: a POSIX shell is told to
/// source the activation script and then to become an interactive shell;
/// PowerShell is handed the script followed by the shell.
pub open spec fn shell_args(platform: Platform, script: Seq<char>, shell: Seq<char>) -> Seq<
    Seq<char>,
> {
    match platform {
        Platform::Posix => seq!["-c"@, "source "@ + script + " && "@ + shell + " -i"@],
        Platform::Windows => seq![script + " && "@ + shell],
    }
}

/// The shell process of an activation, for the shell `shell`. It shares
/// the terminal of the caller.
pub open spec fn shell_command(flow: ActivateFlowView, shell: Seq<char>) -> InvocationView {
    InvocationView {
        program: shell,
        args: shell_args(
            flow.platform,
            activation_script(flow.platform, flow.root, flow.name),
            shell,
        ),
        stdio: Stdio::Inherit,
    }
}

/// The cause given where an environment is there and no shell is known to
/// activate it in.
pub open spec fn no_shell_cause() -> Seq<char> {
    "SHELL is not set"@
}

/// The status line for the end of an activation.
pub open spec fn activate_report(outcome: ActivateOutcomeView) -> Option<NoticeView> {
    match outcome {
        ActivateOutcomeView::NotFound => Some(
            NoticeView { tone: Tone::Warning, text: "Virtual environment does not exist"@ },
        ),
        ActivateOutcomeView::Left => None,
        ActivateOutcomeView::ShellFailed(cause) => Some(
            NoticeView {
                tone: Tone::Failure,
                text: "Failed to activate virtual environment: "@ + cause,
            },
        ),
    }
}

/// What the flow asks for at its stage.
pub open spec fn activate_pending(flow: ActivateFlowView) -> ActivateActionView {
    match flow.stage {
        ActivateStageView::Checking => ActivateActionView::Check {
            notice: NoticeView {
                tone: Tone::Info,
                text: "Activating virtual environment: "@ + flow.name,
            },
            script: activation_script(flow.platform, flow.root, flow.name),
        },
        ActivateStageView::Launching { shell } => ActivateActionView::Launch(
            shell_command(flow, shell),
        ),
        ActivateStageView::Done(outcome) => ActivateActionView::Finish {
            notice: activate_report(outcome),
            outcome,
        },
    }
}

/// The flow after it was told how what it asked for went. Whether a shell
/// is known matters only once the activation script was found: an
/// environment that is not there ends the flow as `NotFound` whatever the
/// shell. A shell that is not known or cannot be started is reported and is
/// no more than that. An event that does not answer what is pending changes
/// nothing.
pub open spec fn activate_next(flow: ActivateFlowView, event: ActivateEventView) -> ActivateFlowView {
    let stage = match (flow.stage, event) {
        (ActivateStageView::Checking, ActivateEventView::Found(found)) => if !found {
            ActivateStageView::Done(ActivateOutcomeView::NotFound)
        } else {
            match flow.shell {
                Some(shell) => ActivateStageView::Launching { shell },
                None => ActivateStageView::Done(ActivateOutcomeView::ShellFailed(no_shell_cause())),
            }
        },
        (
            ActivateStageView::Launching { .. },
            ActivateEventView::Launched(CompletionView::Exited { .. }),
        ) => ActivateStageView::Done(ActivateOutcomeView::Left),
        (
            ActivateStageView::Launching { .. },
            ActivateEventView::Launched(CompletionView::Failed(cause)),
        ) => ActivateStageView::Done(ActivateOutcomeView::ShellFailed(cause)),
        _ => flow.stage,
    };
    ActivateFlowView { stage, ..flow }
}

impl ActivateOutcome {
    /// A copy of this outcome.
    pub fn duplicate(&self) -> (copy: ActivateOutcome)
        ensures
            copy@ == self@,
    {
        match self {
            ActivateOutcome::NotFound => ActivateOutcome::NotFound,
            ActivateOutcome::Left => ActivateOutcome::Left,
            ActivateOutcome::ShellFailed(cause) => ActivateOutcome::ShellFailed(cause.clone()),
        }
    }
}

impl ActivateFlow {
    /// Begins the activation of `venv` under `root`, for a user who works in
    /// `shell`; `None` where the shell is not known.
    pub fn new(venv: &Venv, root: String, platform: Platform, shell: Option<String>) -> (flow:
        ActivateFlow)
        ensures
            flow@ == activate_start(venv@, root@, platform, shell.deep_view()),
            valid_name(flow@.name),
    {
        ActivateFlow {
            stage: ActivateStage::Checking,
            platform,
            root,
            name: String::from_str(venv.name()),
            shell,
        }
    }

    fn shell_command(&self, shell: &str) -> (invocation: Invocation)
        ensures
            invocation@ == shell_command(self@, shell@),
    {
        let script = self.platform.activation_script(self.root.as_str(), self.name.as_str());
        let mut args: Vec<String> = Vec::new();
        match self.platform {
            Platform::Posix => {
                let mut line = String::from_str("source ");
                line.append(script.as_str());
                line.append(" && ");
                line.append(shell);
                line.append(" -i");
                args.push(String::from_str("-c"));
                args.push(line);
            },
            Platform::Windows => {
                let mut line = script;
                line.append(" && ");
                line.append(shell);
                args.push(line);
            },
        }
        assert(texts(args@) =~= shell_command(self@, shell@).args);
        activate_venv_shell(shell, args)
    }

    fn report(outcome: &ActivateOutcome) -> (notice: Option<Notice>)
        ensures
            notice.deep_view() == activate_report(outcome@),
    {
        match outcome {
            ActivateOutcome::NotFound => Some(
                Notice::new(Tone::Warning, "Virtual environment does not exist"),
            ),
            ActivateOutcome::Left => None,
            ActivateOutcome::ShellFailed(cause) => Some(
                Notice::labelled(
                    Tone::Failure,
                    "Failed to activate virtual environment: ",
                    cause.as_str(),
                ),
            ),
        }
    }

    /// What the caller is to do next.
    pub fn pending(&self) -> (action: ActivateAction)
        ensures
            action@ == activate_pending(self@),
    {
        match &self.stage {
            ActivateStage::Checking => ActivateAction::Check {
                notice: Notice::labelled(
                    Tone::Info,
                    "Activating virtual environment: ",
                    self.name.as_str(),
                ),
                script: self.platform.activation_script(self.root.as_str(), self.name.as_str()),
            },
            ActivateStage::Launching { shell } => ActivateAction::Launch(
                self.shell_command(shell.as_str()),
            ),
            ActivateStage::Done(outcome) => ActivateAction::Finish {
                notice: Self::report(outcome),
                outcome: outcome.duplicate(),
            },
        }
    }

    /// Takes in how what was pending went.
    pub fn step(&mut self, event: ActivateEvent)
        ensures
            final(self)@ == activate_next(old(self)@, event@),
    {
        let next = match (&self.stage, event) {
            (ActivateStage::Checking, ActivateEvent::Found(found)) => if !found {
                Some(ActivateStage::Done(ActivateOutcome::NotFound))
            } else {
                match &self.shell {
                    Some(shell) => Some(ActivateStage::Launching { shell: shell.clone() }),
                    None => Some(
                        ActivateStage::Done(
                            ActivateOutcome::ShellFailed(String::from_str("SHELL is not set")),
                        ),
                    ),
                }
            },
            (
                ActivateStage::Launching { .. },
                ActivateEvent::Launched(Completion::Exited { .. }),
            ) => Some(ActivateStage::Done(ActivateOutcome::Left)),
            (
                ActivateStage::Launching { .. },
                ActivateEvent::Launched(Completion::Failed(cause)),
            ) => Some(ActivateStage::Done(ActivateOutcome::ShellFailed(cause))),
            _ => None,
        };
        match next {
            Some(stage) => {
                self.stage = stage;
            },
            None => {},
        }
    }
}

/// The flow after a sequence of events.
pub open spec fn activate_run(flow: ActivateFlowView, events: Seq<ActivateEventView>) -> ActivateFlowView
    decreases events.len(),
{
    if events.len() == 0 {
        flow
    } else {
        activate_next(activate_run(flow, events.drop_last()), events.last())
    }
}

/// Whether the activation script was never found to be there.
pub open spec fn never_found(events: Seq<ActivateEventView>) -> bool {
    forall|i: int| 0 <= i < events.len() ==> #[trigger] events[i] != ActivateEventView::Found(true)
}

/// Activating an environment that is not there starts no shell, whether a
/// shell is known or not: as long as the activation script is not found,
/// the flow never asks to launch anything, and when it ends, it ends as
/// `NotFound`, with the warning that the environment does not exist.
pub proof fn lemma_activate_missing_starts_no_shell(
    venv: VenvView,
    root: Seq<char>,
    platform: Platform,
    shell: Option<Seq<char>>,
    events: Seq<ActivateEventView>,
)
    requires
        never_found(events),
    ensures
        ({
            let end = activate_run(activate_start(venv, root, platform, shell), events);
            &&& !(activate_pending(end) is Launch)
            &&& end.stage is Done ==> activate_pending(end) == ActivateActionView::Finish {
                notice: Some(
                    NoticeView { tone: Tone::Warning, text: "Virtual environment does not exist"@ },
                ),
                outcome: ActivateOutcomeView::NotFound,
            }
        }),
    decreases events.len(),
{
    if events.len() > 0 {
        let before = events.drop_last();
        assert forall|i: int| 0 <= i < before.len() implies #[trigger] before[i]
            != ActivateEventView::Found(true) by {
            assert(before[i] == events[i]);
        }
        lemma_activate_missing_starts_no_shell(venv, root, platform, shell, before);
        assert(events.last() == events[events.len() - 1]);
    }
}

/// Without a known shell nothing is ever launched, whatever is found: an
/// environment that is there then ends the flow with the report that no
/// shell is set.
pub proof fn lemma_activate_without_shell_launches_nothing(
    venv: VenvView,
    root: Seq<char>,
    platform: Platform,
    events: Seq<ActivateEventView>,
)
    ensures
        ({
            let end = activate_run(activate_start(venv, root, platform, None), events);
            &&& !(activate_pending(end) is Launch)
            &&& end.shell is None
            &&& end.stage is Done ==> end.stage == ActivateStageView::Done(
                ActivateOutcomeView::NotFound,
            ) || end.stage == ActivateStageView::Done(
                ActivateOutcomeView::ShellFailed(no_shell_cause()),
            )
        }),
    decreases events.len(),
{
    if events.len() > 0 {
        lemma_activate_without_shell_launches_nothing(venv, root, platform, events.drop_last());
    }
}

} // verus!
