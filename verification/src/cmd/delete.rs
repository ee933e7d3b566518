//! Deleting an environment.
//!
//! An environment that is not there is left alone, and that is no error. One
//! that is there is removed only after the user has agreed.
//!
//! The caller performs what [`DeleteFlow::pending`] asks for and reports
//! how it went with [`DeleteFlow::step`], until the flow asks to finish.

use crate::cmd::utils::{confirm, confirm_prompt, confirms};
use crate::cmd::venvmgr::{valid_name, Venv, VenvView};
use crate::notice::{Notice, NoticeView, Tone};
use crate::platform::{environment_dir, venv_dir};
use crate::text::{forward_slashes, with_forward_slashes};
use vstd::prelude::*;

verus! {

/// What a deletion came to.
#[derive(Clone, Debug, PartialEq, Eq)]
pub enum DeleteOutcome {
    /// There is no such environment; nothing was done.
    NotFound,
    /// The user did not agree; nothing was done.
    Declined,
    /// The environment was removed.
    Removed,
    /// The environment could not be removed; holds the cause.
    Failed(String),
}

/// The mathematical value of a [`DeleteOutcome`].
pub enum DeleteOutcomeView {
    NotFound,
    Declined,
    Removed,
    Failed(Seq<char>),
}

impl View for DeleteOutcome {
    type V = DeleteOutcomeView;

    open spec fn view(&self) -> DeleteOutcomeView {
        match self {
            DeleteOutcome::NotFound => DeleteOutcomeView::NotFound,
            DeleteOutcome::Declined => DeleteOutcomeView::Declined,
            DeleteOutcome::Removed => DeleteOutcomeView::Removed,
            DeleteOutcome::Failed(cause) => DeleteOutcomeView::Failed(cause@),
        }
    }
}

/// How far a deletion has come.
#[derive(Clone, Debug, PartialEq, Eq)]
pub enum DeleteStage {
    /// It is about to be found out whether the environment is there.
    Checking,
    /// The user is about to be asked.
    Confirming,
    /// The directory is about to be removed.
    Removing,
    /// Nothing is left to do.
    Done(DeleteOutcome),
}

/// The mathematical value of a [`DeleteStage`].
pub enum DeleteStageView {
    Checking,
    Confirming,
    Removing,
    Done(DeleteOutcomeView),
}

impl View for DeleteStage {
    type V = DeleteStageView;

    open spec fn view(&self) -> DeleteStageView {
        match self {
            DeleteStage::Checking => DeleteStageView::Checking,
            DeleteStage::Confirming => DeleteStageView::Confirming,
            DeleteStage::Removing => DeleteStageView::Removing,
            DeleteStage::Done(outcome) => DeleteStageView::Done(outcome@),
        }
    }
}

/// How what the flow asked for went.
#[derive(Clone, Debug, PartialEq, Eq)]
pub enum DeleteEvent {
    /// Whether the directory is there.
    Found(bool),
    /// The line that the user typed.
    Answered(String),
    /// The directory was removed.
    Removed,
    /// The directory could not be removed; holds the cause.
    RemoveFailed(String),
}

/// The mathematical value of a [`DeleteEvent`].
pub enum DeleteEventView {
    Found(bool),
    Answered(Seq<char>),
    Removed,
    RemoveFailed(Seq<char>),
}

impl View for DeleteEvent {
    type V = DeleteEventView;

    open spec fn view(&self) -> DeleteEventView {
        match self {
            DeleteEvent::Found(found) => DeleteEventView::Found(*found),
            DeleteEvent::Answered(answer) => DeleteEventView::Answered(answer@),
            DeleteEvent::Removed => DeleteEventView::Removed,
            DeleteEvent::RemoveFailed(cause) => DeleteEventView::RemoveFailed(cause@),
        }
    }
}

/// What the caller is to do next.
#[derive(Clone, Debug, PartialEq, Eq)]
pub enum DeleteAction {
    /// Find out whether `dir` is there.
    Check { dir: String },
    /// Show `notice`, then `prompt`, and read one line from the user.
    Confirm { notice: Notice, prompt: Notice },
    /// Remove `dir` and everything in it.
    Remove { dir: String },
    /// Show the status line, if there is one, and stop.
    Finish { notice: Option<Notice>, outcome: DeleteOutcome },
}

/// The mathematical value of a [`DeleteAction`].
pub enum DeleteActionView {
    Check { dir: Seq<char> },
    Confirm { notice: NoticeView, prompt: NoticeView },
    Remove { dir: Seq<char> },
    Finish { notice: Option<NoticeView>, outcome: DeleteOutcomeView },
}

impl View for DeleteAction {
    type V = DeleteActionView;

    open spec fn view(&self) -> DeleteActionView {
        match self {
            DeleteAction::Check { dir } => DeleteActionView::Check { dir: dir@ },
            DeleteAction::Confirm { notice, prompt } => DeleteActionView::Confirm {
                notice: notice@,
                prompt: prompt@,
            },
            DeleteAction::Remove { dir } => DeleteActionView::Remove { dir: dir@ },
            DeleteAction::Finish { notice, outcome } => DeleteActionView::Finish {
                notice: notice.deep_view(),
                outcome: outcome@,
            },
        }
    }
}

/// The deletion of one environment, under way.
#[derive(Debug, PartialEq, Eq)]
pub struct DeleteFlow {
    stage: DeleteStage,
    root: String,
    name: String,
}

/// The mathematical value of a [`DeleteFlow`].
pub struct DeleteFlowView {
    pub stage: DeleteStageView,
    /// The environments' root.
    pub root: Seq<char>,
    pub name: Seq<char>,
}

impl View for DeleteFlow {
    type V = DeleteFlowView;

    closed spec fn view(&self) -> DeleteFlowView {
        DeleteFlowView { stage: self.stage@, root: self.root@, name: self.name@ }
    }
}

/// The flow at its beginning, for the environment `venv` under `root`.
pub open spec fn delete_start(venv: VenvView, root: Seq<char>) -> DeleteFlowView {
    DeleteFlowView { stage: DeleteStageView::Checking, root, name: venv.name }
}

/// The directory that the flow is about.
pub open spec fn delete_target(flow: DeleteFlowView) -> Seq<char> {
    venv_dir(flow.root, flow.name)
}

/// The status line that announces what is about to be removed. The path is
/// shown with forward slashes.
pub open spec fn delete_announcement(flow: DeleteFlowView) -> NoticeView {
    NoticeView {
        tone: Tone::Warning,
        text: "Deleting virtual environment: "@ + flow.name + " at "@ + forward_slashes(
            delete_target(flow),
        ),
    }
}

/// The status line for the end of a deletion. It tells apart that nothing
/// was there, that the user declined, that the environment is gone, and that
/// removing it failed.
pub open spec fn delete_report(name: Seq<char>, outcome: DeleteOutcomeView) -> Option<NoticeView> {
    match outcome {
        DeleteOutcomeView::NotFound => Some(
            NoticeView { tone: Tone::Warning, text: "Virtual environment does not exist"@ },
        ),
        DeleteOutcomeView::Declined => Some(
            NoticeView { tone: Tone::Info, text: "Deletion cancelled"@ },
        ),
        DeleteOutcomeView::Removed => Some(
            NoticeView { tone: Tone::Success, text: name + " has been deleted"@ },
        ),
        DeleteOutcomeView::Failed(cause) => Some(
            NoticeView { tone: Tone::Failure, text: cause + " "@ + name },
        ),
    }
}

/// The question put to the user.
pub open spec fn delete_prompt() -> NoticeView {
    NoticeView { tone: Tone::Info, text: "Do you want to continue? (y/n): "@ }
}

/// What the flow asks for at its stage.
pub open spec fn delete_pending(flow: DeleteFlowView) -> DeleteActionView {
    match flow.stage {
        DeleteStageView::Checking => DeleteActionView::Check { dir: delete_target(flow) },
        DeleteStageView::Confirming => DeleteActionView::Confirm {
            notice: delete_announcement(flow),
            prompt: delete_prompt(),
        },
        DeleteStageView::Removing => DeleteActionView::Remove { dir: delete_target(flow) },
        DeleteStageView::Done(outcome) => DeleteActionView::Finish {
            notice: delete_report(flow.name, outcome),
            outcome,
        },
    }
}

/// The stage after the flow was told how what it asked for went. An event
/// that does not answer what is pending changes nothing.
pub open spec fn delete_next_stage(stage: DeleteStageView, event: DeleteEventView) -> DeleteStageView {
    match (stage, event) {
        (DeleteStageView::Checking, DeleteEventView::Found(found)) => if found {
            DeleteStageView::Confirming
        } else {
            DeleteStageView::Done(DeleteOutcomeView::NotFound)
        },
        (DeleteStageView::Confirming, DeleteEventView::Answered(answer)) => if confirms(answer) {
            DeleteStageView::Removing
        } else {
            DeleteStageView::Done(DeleteOutcomeView::Declined)
        },
        (DeleteStageView::Removing, DeleteEventView::Removed) => DeleteStageView::Done(
            DeleteOutcomeView::Removed,
        ),
        (DeleteStageView::Removing, DeleteEventView::RemoveFailed(cause)) => DeleteStageView::Done(
            DeleteOutcomeView::Failed(cause),
        ),
        _ => stage,
    }
}

/// The flow after the flow was told how what it asked for went.
pub open spec fn delete_next(flow: DeleteFlowView, event: DeleteEventView) -> DeleteFlowView {
    DeleteFlowView { stage: delete_next_stage(flow.stage, event), ..flow }
}

impl DeleteOutcome {
    /// A copy of this outcome.
    pub fn duplicate(&self) -> (copy: DeleteOutcome)
        ensures
            copy@ == self@,
    {
        match self {
            DeleteOutcome::NotFound => DeleteOutcome::NotFound,
            DeleteOutcome::Declined => DeleteOutcome::Declined,
            DeleteOutcome::Removed => DeleteOutcome::Removed,
            DeleteOutcome::Failed(cause) => DeleteOutcome::Failed(cause.clone()),
        }
    }
}

impl DeleteFlow {
    /// Begins the deletion of `venv` under `root`.
    pub fn new(venv: &Venv, root: String) -> (flow: DeleteFlow)
        ensures
            flow@ == delete_start(venv@, root@),
            valid_name(flow@.name),
    {
        DeleteFlow { stage: DeleteStage::Checking, root, name: String::from_str(venv.name()) }
    }

    fn announcement(&self) -> (notice: Notice)
        ensures
            notice@ == delete_announcement(self@),
    {
        let dir = environment_dir(self.root.as_str(), self.name.as_str());
        let mut text = String::from_str("Deleting virtual environment: ");
        text.append(self.name.as_str());
        text.append(" at ");
        text.append(with_forward_slashes(dir.as_str()).as_str());
        Notice { tone: Tone::Warning, text }
    }

    fn report(&self, outcome: &DeleteOutcome) -> (notice: Option<Notice>)
        ensures
            notice.deep_view() == delete_report(self@.name, outcome@),
    {
        match outcome {
            DeleteOutcome::NotFound => Some(
                Notice::new(Tone::Warning, "Virtual environment does not exist"),
            ),
            DeleteOutcome::Declined => Some(Notice::new(Tone::Info, "Deletion cancelled")),
            DeleteOutcome::Removed => {
                let mut text = self.name.clone();
                text.append(" has been deleted");
                Some(Notice { tone: Tone::Success, text })
            },
            DeleteOutcome::Failed(cause) => {
                let mut text = cause.clone();
                text.append(" ");
                text.append(self.name.as_str());
                Some(Notice { tone: Tone::Failure, text })
            },
        }
    }

    /// What the caller is to do next.
    pub fn pending(&self) -> (action: DeleteAction)
        ensures
            action@ == delete_pending(self@),
    {
        match &self.stage {
            DeleteStage::Checking => DeleteAction::Check {
                dir: environment_dir(self.root.as_str(), self.name.as_str()),
            },
            DeleteStage::Confirming => DeleteAction::Confirm {
                notice: self.announcement(),
                prompt: confirm_prompt(),
            },
            DeleteStage::Removing => DeleteAction::Remove {
                dir: environment_dir(self.root.as_str(), self.name.as_str()),
            },
            DeleteStage::Done(outcome) => DeleteAction::Finish {
                notice: self.report(outcome),
                outcome: outcome.duplicate(),
            },
        }
    }

    /// Takes in how what was pending went.
    pub fn step(&mut self, event: DeleteEvent)
        ensures
            final(self)@ == delete_next(old(self)@, event@),
    {
        let next = match (&self.stage, event) {
            (DeleteStage::Checking, DeleteEvent::Found(found)) => if found {
                Some(DeleteStage::Confirming)
            } else {
                Some(DeleteStage::Done(DeleteOutcome::NotFound))
            },
            (DeleteStage::Confirming, DeleteEvent::Answered(answer)) => if confirm(
                answer.as_str(),
            ) {
                Some(DeleteStage::Removing)
            } else {
                Some(DeleteStage::Done(DeleteOutcome::Declined))
            },
            (DeleteStage::Removing, DeleteEvent::Removed) => Some(
                DeleteStage::Done(DeleteOutcome::Removed),
            ),
            (DeleteStage::Removing, DeleteEvent::RemoveFailed(cause)) => Some(
                DeleteStage::Done(DeleteOutcome::Failed(cause)),
            ),
            _ => None,
        };
        match next {
            Some(stage) => {
                self.stage = stage;
            },
            None => {},
        }
    }
}

/// The environments' directories that are there after the caller did what
/// was pending and reported `event`: a removal that succeeded takes the
/// flow's directory away, and nothing else changes anything.
pub open spec fn present_after(
    flow: DeleteFlowView,
    present: Set<Seq<char>>,
    event: DeleteEventView,
) -> Set<Seq<char>> {
    match (flow.stage, event) {
        (DeleteStageView::Removing, DeleteEventView::Removed) => present.remove(
            delete_target(flow),
        ),
        _ => present,
    }
}

/// The flow and the directories that are there after a sequence of events.
pub open spec fn delete_run(
    flow: DeleteFlowView,
    present: Set<Seq<char>>,
    events: Seq<DeleteEventView>,
) -> (DeleteFlowView, Set<Seq<char>>)
    decreases events.len(),
{
    if events.len() == 0 {
        (flow, present)
    } else {
        let (before, there) = delete_run(flow, present, events.drop_last());
        (delete_next(before, events.last()), present_after(before, there, events.last()))
    }
}

/// Whether the events tell the truth about what is there: whenever the flow
/// waits to hear whether its directory exists, the answer is what holds at
/// that moment.
pub open spec fn truthful(
    flow: DeleteFlowView,
    present: Set<Seq<char>>,
    events: Seq<DeleteEventView>,
) -> bool
    decreases events.len(),
{
    if events.len() == 0 {
        true
    } else {
        let (before, there) = delete_run(flow, present, events.drop_last());
        &&& truthful(flow, present, events.drop_last())
        &&& (before.stage is Checking && events.last() is Found ==> events.last()->Found_0
            == there.contains(delete_target(before)))
    }
}

/// Whether a flow has neither done anything yet nor found anything to do.
pub open spec fn idle(flow: DeleteFlowView) -> bool {
    flow.stage is Checking || flow.stage == DeleteStageView::Done(DeleteOutcomeView::NotFound)
}

/// Deleting an environment that is not there does nothing, however often it
/// is tried: a first run leaves everything that is there in place and can
/// only end as `NotFound`, and so does a second run after it. Neither ever
/// gets to ask for a removal.
pub proof fn lemma_delete_absent_is_idempotent(
    venv: VenvView,
    root: Seq<char>,
    present: Set<Seq<char>>,
    first: Seq<DeleteEventView>,
    second: Seq<DeleteEventView>,
)
    requires
        !present.contains(venv_dir(root, venv.name)),
        truthful(delete_start(venv, root), present, first),
        truthful(delete_start(venv, root), present, second),
    ensures
        delete_run(delete_start(venv, root), present, first).1 == present,
        idle(delete_run(delete_start(venv, root), present, first).0),
        delete_run(delete_start(venv, root), present, second).1 == present,
        idle(delete_run(delete_start(venv, root), present, second).0),
        !(delete_pending(delete_run(delete_start(venv, root), present, first).0) is Remove),
        !(delete_pending(delete_run(delete_start(venv, root), present, second).0) is Remove),
{
    lemma_delete_absent_stays_idle(delete_start(venv, root), present, first);
    lemma_delete_absent_stays_idle(delete_start(venv, root), present, second);
}

proof fn lemma_delete_absent_stays_idle(
    start: DeleteFlowView,
    present: Set<Seq<char>>,
    events: Seq<DeleteEventView>,
)
    requires
        start.stage is Checking,
        !present.contains(delete_target(start)),
        truthful(start, present, events),
    ensures
        delete_run(start, present, events).1 == present,
        idle(delete_run(start, present, events).0),
        delete_target(delete_run(start, present, events).0) == delete_target(start),
    decreases events.len(),
{
    if events.len() > 0 {
        lemma_delete_absent_stays_idle(start, present, events.drop_last());
    }
}

} // verus!
