//! Creating an environment.
//!
//! The work is done inside the environments' root: the process changes into
//! it, runs the tool that creates the environment, installs the packages if
//! there are any, and changes back. Changing back is owed on every path on
//! which the root was entered, whether the commands succeeded or not.
//!
//! The caller performs what [`CreateFlow::pending`] asks for and reports
//! how it went with [`CreateFlow::step`], until the flow asks to finish.

use crate::cmd::error::{run_result, VenvError, VenvErrorView};
use crate::cmd::utils::{create_child_cmd, Invocation, InvocationView, Stdio};
use crate::cmd::venvmgr::{effective, effective_packages, valid_name, Venv, VenvView};
use crate::notice::{Notice, NoticeView, Tone};
use crate::platform::{activation_script, command_flag, command_shell, Platform};
use crate::text::{join, joined, texts};
use vstd::prelude::*;

verus! {

/// How far the creation of an environment has come.
#[derive(Clone, Copy, Debug, PartialEq, Eq, Structural)]
pub enum CreateStage {
    /// The root is about to be entered.
    Entering,
    /// The tool that creates the environment is about to run.
    Creating,
    /// The packages are about to be installed.
    Installing,
    /// The directory in which the work began is about to be entered again.
    Leaving,
    /// Nothing is left to do.
    Done,
}

/// How what the flow asked for went.
#[derive(Debug, PartialEq, Eq)]
pub enum CreateEvent {
    /// The working directory was changed as asked.
    DirChanged,
    /// The working directory could not be changed; holds the cause.
    DirChangeFailed(String),
    /// The command was run; holds how the run ended.
    Ran(Result<(), VenvError>),
}

/// The mathematical value of a [`CreateEvent`].
pub enum CreateEventView {
    DirChanged,
    DirChangeFailed(Seq<char>),
    Ran(Result<(), VenvErrorView>),
}

impl View for CreateEvent {
    type V = CreateEventView;

    open spec fn view(&self) -> CreateEventView {
        match self {
            CreateEvent::DirChanged => CreateEventView::DirChanged,
            CreateEvent::DirChangeFailed(cause) => CreateEventView::DirChangeFailed(cause@),
            CreateEvent::Ran(result) => CreateEventView::Ran(run_result(*result)),
        }
    }
}

/// What the caller is to do next.
#[derive(Debug, PartialEq, Eq)]
pub enum CreateAction {
    /// Remember the working directory and change into `dir`.
    EnterRoot { dir: String },
    /// Show the status line, then run the process to its end, showing its
    /// output.
    Run { notice: Notice, invocation: Invocation },
    /// Change back into the directory remembered on entering.
    Leave,
    /// Stop; this is the result of the operation.
    Finish(Result<(), VenvError>),
}

/// The mathematical value of a [`CreateAction`].
pub enum CreateActionView {
    EnterRoot { dir: Seq<char> },
    Run { notice: NoticeView, invocation: InvocationView },
    Leave,
    Finish(Result<(), VenvErrorView>),
}

impl View for CreateAction {
    type V = CreateActionView;

    open spec fn view(&self) -> CreateActionView {
        match self {
            CreateAction::EnterRoot { dir } => CreateActionView::EnterRoot { dir: dir@ },
            CreateAction::Run { notice, invocation } => CreateActionView::Run {
                notice: notice@,
                invocation: invocation@,
            },
            CreateAction::Leave => CreateActionView::Leave,
            CreateAction::Finish(result) => CreateActionView::Finish(run_result(*result)),
        }
    }
}

/// The creation of one environment, under way.
#[derive(Debug, PartialEq, Eq)]
pub struct CreateFlow {
    stage: CreateStage,
    platform: Platform,
    root: String,
    name: String,
    python_version: String,
    packages: Vec<String>,
    result: Result<(), VenvError>,
}

/// The mathematical value of a [`CreateFlow`].
pub struct CreateFlowView {
    pub stage: CreateStage,
    pub platform: Platform,
    /// The environments' root.
    pub root: Seq<char>,
    pub name: Seq<char>,
    pub python_version: Seq<char>,
    /// The packages to install: the requested ones and, where wanted, the
    /// defaults.
    pub packages: Seq<Seq<char>>,
    /// What the operation has come to so far.
    pub result: Result<(), VenvErrorView>,
}

impl View for CreateFlow {
    type V = CreateFlowView;

    closed spec fn view(&self) -> CreateFlowView {
        CreateFlowView {
            stage: self.stage,
            platform: self.platform,
            root: self.root@,
            name: self.name@,
            python_version: self.python_version@,
            packages: texts(self.packages@),
            result: run_result(self.result),
        }
    }
}

/// The flow at its beginning, for the environment `venv` under `root`.
pub open spec fn create_start(
    venv: VenvView,
    root: Seq<char>,
    defaults: Seq<Seq<char>>,
    platform: Platform,
) -> CreateFlowView {
    CreateFlowView {
        stage: CreateStage::Entering,
        platform,
        root,
        name: venv.name,
        python_version: venv.python_version,
        packages: effective(venv.packages, defaults, venv.use_defaults),
        result: Ok(()),
    }
}

/// The process that creates the environment: `uv venv <name> --python
/// <version>`.
pub open spec fn creation_command(name: Seq<char>, python_version: Seq<char>) -> InvocationView {
    InvocationView {
        program: "uv"@,
        args: seq!["venv"@, name, "--python"@, python_version],
        stdio: Stdio::Piped,
    }
}

/// The command line that activates the environment and then installs the
/// packages into it. A POSIX shell has to `source` the activation script;
/// PowerShell runs it as it is.
pub open spec fn install_line(
    platform: Platform,
    root: Seq<char>,
    name: Seq<char>,
    packages: Seq<Seq<char>>,
) -> Seq<char> {
    let script = activation_script(platform, root, name);
    let install = " && uv pip install "@ + joined(packages, " "@);
    match platform {
        Platform::Posix => "source "@ + script + install,
        Platform::Windows => script + install,
    }
}

/// The process that installs the packages: the platform's shell, handed
/// [`install_line`] as one argument.
pub open spec fn install_command(
    platform: Platform,
    root: Seq<char>,
    name: Seq<char>,
    packages: Seq<Seq<char>>,
) -> InvocationView {
    InvocationView {
        program: command_shell(platform),
        args: seq![command_flag(platform), install_line(platform, root, name, packages)],
        stdio: Stdio::Piped,
    }
}

/// What the flow asks for at its stage.
pub open spec fn create_pending(flow: CreateFlowView) -> CreateActionView {
    match flow.stage {
        CreateStage::Entering => CreateActionView::EnterRoot { dir: flow.root },
        CreateStage::Creating => CreateActionView::Run {
            notice: NoticeView {
                tone: Tone::Info,
                text: "Creating virtual environment: "@ + flow.name,
            },
            invocation: creation_command(flow.name, flow.python_version),
        },
        CreateStage::Installing => CreateActionView::Run {
            notice: NoticeView {
                tone: Tone::Info,
                text: "Installing package(s): "@ + joined(flow.packages, ", "@),
            },
            invocation: install_command(flow.platform, flow.root, flow.name, flow.packages),
        },
        CreateStage::Leaving => CreateActionView::Leave,
        CreateStage::Done => CreateActionView::Finish(flow.result),
    }
}

/// How the run of a command counts for the operation when the command
/// belongs to `stage`: a failure status of the creating tool is
/// `CreateFailed`, one of the installer `InstallFailed`; a command that did
/// not start, or was lost, keeps its own error.
pub open spec fn stage_result(stage: CreateStage, run: Result<(), VenvErrorView>) -> Result<
    (),
    VenvErrorView,
> {
    match run {
        Err(VenvErrorView::CommandFailed) => match stage {
            CreateStage::Creating => Err(VenvErrorView::CreateFailed),
            CreateStage::Installing => Err(VenvErrorView::InstallFailed),
            _ => run,
        },
        _ => run,
    }
}

/// The flow after it was told how what it asked for went. An event that does
/// not answer what is pending changes nothing.
pub open spec fn create_next(flow: CreateFlowView, event: CreateEventView) -> CreateFlowView {
    match (flow.stage, event) {
        (CreateStage::Entering, CreateEventView::DirChanged) => CreateFlowView {
            stage: CreateStage::Creating,
            ..flow
        },
        (CreateStage::Entering, CreateEventView::DirChangeFailed(cause)) => CreateFlowView {
            stage: CreateStage::Done,
            result: Err(VenvErrorView::Io(cause)),
            ..flow
        },
        (CreateStage::Creating, CreateEventView::Ran(Ok(()))) => CreateFlowView {
            stage: if flow.packages.len() > 0 {
                CreateStage::Installing
            } else {
                CreateStage::Leaving
            },
            ..flow
        },
        (CreateStage::Creating, CreateEventView::Ran(run)) => CreateFlowView {
            stage: CreateStage::Leaving,
            result: stage_result(CreateStage::Creating, run),
            ..flow
        },
        (CreateStage::Installing, CreateEventView::Ran(run)) => CreateFlowView {
            stage: CreateStage::Leaving,
            result: stage_result(CreateStage::Installing, run),
            ..flow
        },
        (CreateStage::Leaving, CreateEventView::DirChanged) => CreateFlowView {
            stage: CreateStage::Done,
            ..flow
        },
        (CreateStage::Leaving, CreateEventView::DirChangeFailed(cause)) => CreateFlowView {
            stage: CreateStage::Done,
            result: Err(VenvErrorView::Io(cause)),
            ..flow
        },
        _ => flow,
    }
}

fn stage_error(stage: CreateStage, error: VenvError) -> (counted: VenvError)
    ensures
        Err::<(), VenvErrorView>(counted@) == stage_result(stage, Err(error@)),
{
    match error {
        VenvError::CommandFailed => match stage {
            CreateStage::Creating => VenvError::CreateFailed,
            CreateStage::Installing => VenvError::InstallFailed,
            _ => VenvError::CommandFailed,
        },
        other => other,
    }
}

impl CreateFlow {
    /// Begins the creation of `venv` under `root`, with `defaults` as the
    /// configured default packages.
    pub fn new(venv: &Venv, root: String, defaults: &Vec<String>, platform: Platform) -> (flow:
        CreateFlow)
        ensures
            flow@ == create_start(venv@, root@, texts(defaults@), platform),
            valid_name(flow@.name),
    {
        CreateFlow {
            stage: CreateStage::Entering,
            platform,
            root,
            name: String::from_str(venv.name()),
            python_version: String::from_str(venv.python_version()),
            packages: effective_packages(venv.packages(), defaults, venv.uses_defaults()),
            result: Ok(()),
        }
    }

    fn creation_command(&self) -> (invocation: Invocation)
        ensures
            invocation@ == creation_command(self@.name, self@.python_version),
    {
        let args = ["venv", self.name.as_str(), "--python", self.python_version.as_str()];
        let invocation = create_child_cmd("uv", args.as_slice());
        assert(invocation@.args =~= creation_command(self@.name, self@.python_version).args);
        invocation
    }

    fn install_command(&self) -> (invocation: Invocation)
        ensures
            invocation@ == install_command(
                self@.platform,
                self@.root,
                self@.name,
                self@.packages,
            ),
    {
        let script = self.platform.activation_script(self.root.as_str(), self.name.as_str());
        let mut line = match self.platform {
            Platform::Posix => String::from_str("source "),
            Platform::Windows => String::new(),
        };
        line.append(script.as_str());
        line.append(" && uv pip install ");
        line.append(join(&self.packages, " ").as_str());
        let shell = self.platform.command_shell();
        let flag = self.platform.command_flag();
        let args = [flag.as_str(), line.as_str()];
        let invocation = create_child_cmd(shell.as_str(), args.as_slice());
        proof {
            let wanted = install_command(
                self@.platform,
                self@.root,
                self@.name,
                self@.packages,
            );
            assert(line@ =~= wanted.args[1]);
            assert(invocation@.args =~= wanted.args);
        }
        invocation
    }

    /// What the caller is to do next.
    pub fn pending(&self) -> (action: CreateAction)
        ensures
            action@ == create_pending(self@),
    {
        match self.stage {
            CreateStage::Entering => CreateAction::EnterRoot { dir: self.root.clone() },
            CreateStage::Creating => CreateAction::Run {
                notice: Notice::labelled(
                    Tone::Info,
                    "Creating virtual environment: ",
                    self.name.as_str(),
                ),
                invocation: self.creation_command(),
            },
            CreateStage::Installing => CreateAction::Run {
                notice: Notice::labelled(
                    Tone::Info,
                    "Installing package(s): ",
                    join(&self.packages, ", ").as_str(),
                ),
                invocation: self.install_command(),
            },
            CreateStage::Leaving => CreateAction::Leave,
            CreateStage::Done => CreateAction::Finish(
                match &self.result {
                    Ok(()) => Ok(()),
                    Err(error) => Err(error.duplicate()),
                },
            ),
        }
    }

    /// Takes in how what was pending went.
    pub fn step(&mut self, event: CreateEvent)
        ensures
            final(self)@ == create_next(old(self)@, event@),
    {
        match (self.stage, event) {
            (CreateStage::Entering, CreateEvent::DirChanged) => {
                self.stage = CreateStage::Creating;
            },
            (CreateStage::Entering, CreateEvent::DirChangeFailed(cause)) => {
                self.stage = CreateStage::Done;
                self.result = Err(VenvError::Io(cause));
            },
            (CreateStage::Creating, CreateEvent::Ran(Ok(()))) => {
                self.stage = if self.packages.len() > 0 {
                    CreateStage::Installing
                } else {
                    CreateStage::Leaving
                };
            },
            (CreateStage::Creating, CreateEvent::Ran(Err(error))) => {
                self.stage = CreateStage::Leaving;
                self.result = Err(stage_error(CreateStage::Creating, error));
            },
            (CreateStage::Installing, CreateEvent::Ran(Ok(()))) => {
                self.stage = CreateStage::Leaving;
                self.result = Ok(());
            },
            (CreateStage::Installing, CreateEvent::Ran(Err(error))) => {
                self.stage = CreateStage::Leaving;
                self.result = Err(stage_error(CreateStage::Installing, error));
            },
            (CreateStage::Leaving, CreateEvent::DirChanged) => {
                self.stage = CreateStage::Done;
            },
            (CreateStage::Leaving, CreateEvent::DirChangeFailed(cause)) => {
                self.stage = CreateStage::Done;
                self.result = Err(VenvError::Io(cause));
            },
            _ => {},
        }
    }
}

/// Where the process stands while an environment is created.
pub struct Standing {
    /// The working directory of the process.
    pub cwd: Seq<char>,
    /// Whether the system refused to change back into the directory in which
    /// the work began.
    pub stranded: bool,
}

/// Where the process stands after the caller did what was pending and
/// reported `event`: entering the root puts it there, leaving puts it back
/// into `origin`, the directory in which the work began; a change that was
/// refused leaves it where it was. Events that answer nothing move nothing.
pub open spec fn standing_after(
    flow: CreateFlowView,
    origin: Seq<char>,
    standing: Standing,
    event: CreateEventView,
) -> Standing {
    match (flow.stage, event) {
        (CreateStage::Entering, CreateEventView::DirChanged) => Standing {
            cwd: flow.root,
            ..standing
        },
        (CreateStage::Leaving, CreateEventView::DirChanged) => Standing { cwd: origin, ..standing },
        (CreateStage::Leaving, CreateEventView::DirChangeFailed(_)) => Standing {
            stranded: true,
            ..standing
        },
        _ => standing,
    }
}

/// The flow and the standing of the process after a sequence of events.
pub open spec fn create_run(
    flow: CreateFlowView,
    origin: Seq<char>,
    events: Seq<CreateEventView>,
) -> (CreateFlowView, Standing)
    decreases events.len(),
{
    if events.len() == 0 {
        (flow, Standing { cwd: origin, stranded: false })
    } else {
        let (before, standing) = create_run(flow, origin, events.drop_last());
        (create_next(before, events.last()), standing_after(before, origin, standing, events.last()))
    }
}

/// Creating an environment gives the working directory back: whatever the
/// commands come to, and in whatever order events are reported, a flow that
/// has finished has brought the process back into the directory in which it
/// began. The one exception is a system that refuses the change back; the
/// operation then ends with that failure.
pub proof fn lemma_create_restores_directory(
    venv: VenvView,
    root: Seq<char>,
    defaults: Seq<Seq<char>>,
    platform: Platform,
    origin: Seq<char>,
    events: Seq<CreateEventView>,
)
    ensures
        ({
            let start = create_start(venv, root, defaults, platform);
            let (end, standing) = create_run(start, origin, events);
            end.stage is Done ==> if standing.stranded {
                end.result is Err && end.result->Err_0 is Io
            } else {
                standing.cwd == origin
            }
        }),
{
    lemma_create_keeps_track(create_start(venv, root, defaults, platform), origin, events);
}

/// How the stage of a flow and the standing of the process go together.
spec fn on_track(flow: CreateFlowView, origin: Seq<char>, standing: Standing) -> bool {
    match flow.stage {
        CreateStage::Entering => standing.cwd == origin && !standing.stranded,
        CreateStage::Done => if standing.stranded {
            flow.result is Err && flow.result->Err_0 is Io
        } else {
            standing.cwd == origin
        },
        _ => !standing.stranded,
    }
}

proof fn lemma_create_keeps_track(
    start: CreateFlowView,
    origin: Seq<char>,
    events: Seq<CreateEventView>,
)
    requires
        start.stage is Entering,
    ensures
        on_track(create_run(start, origin, events).0, origin, create_run(start, origin, events).1),
    decreases events.len(),
{
    if events.len() > 0 {
        lemma_create_keeps_track(start, origin, events.drop_last());
    }
}

} // verus!
