//! Draining the two output streams of a running process while waiting for
//! it to end.
//!
//! The caller reads both pipes and waits for the process, all at once, and
//! reports each thing that happens as a [`DrainEvent`]. The [`Drain`] keeps
//! track of what is still open and says what is to be shown for each event.
//! The run is over when both streams and the wait have settled.

use crate::cmd::error::{VenvError, VenvErrorView};
use crate::notice::{Notice, NoticeView, Tone};
use vstd::prelude::*;

verus! {

/// One of the two output streams of a process.
#[derive(Clone, Copy, Debug, PartialEq, Eq, Structural)]
pub enum Stream {
    Stdout,
    Stderr,
}

/// Something that happened to the process or to one of its streams.
#[derive(Clone, Debug, PartialEq, Eq)]
pub enum DrainEvent {
    /// A line was read from a stream.
    Line { stream: Stream, text: String },
    /// A stream came to its end.
    Closed(Stream),
    /// Reading a stream failed; no more is read from it.
    ReadFailed { stream: Stream, cause: String },
    /// The process ended.
    Exited { success: bool },
    /// Waiting for the process failed.
    WaitFailed(String),
}

/// The mathematical value of a [`DrainEvent`].
pub enum DrainEventView {
    Line { stream: Stream, text: Seq<char> },
    Closed(Stream),
    ReadFailed { stream: Stream, cause: Seq<char> },
    Exited { success: bool },
    WaitFailed(Seq<char>),
}

impl View for DrainEvent {
    type V = DrainEventView;

    open spec fn view(&self) -> DrainEventView {
        match self {
            DrainEvent::Line { stream, text } => DrainEventView::Line {
                stream: *stream,
                text: text@,
            },
            DrainEvent::Closed(stream) => DrainEventView::Closed(*stream),
            DrainEvent::ReadFailed { stream, cause } => DrainEventView::ReadFailed {
                stream: *stream,
                cause: cause@,
            },
            DrainEvent::Exited { success } => DrainEventView::Exited { success: *success },
            DrainEvent::WaitFailed(cause) => DrainEventView::WaitFailed(cause@),
        }
    }
}

impl DeepView for DrainEvent {
    type V = DrainEventView;

    open spec fn deep_view(&self) -> DrainEventView {
        self@
    }
}

/// Something to show on the console while a process runs.
#[derive(Clone, Debug, PartialEq, Eq)]
pub enum Emission {
    /// A line of output, tagged with the stream it was read from.
    Line { stream: Stream, text: String },
    /// A report about the draining itself.
    Report(Notice),
}

/// The mathematical value of an [`Emission`].
pub enum EmissionView {
    Line { stream: Stream, text: Seq<char> },
    Report(NoticeView),
}

impl View for Emission {
    type V = EmissionView;

    open spec fn view(&self) -> EmissionView {
        match self {
            Emission::Line { stream, text } => EmissionView::Line { stream: *stream, text: text@ },
            Emission::Report(notice) => EmissionView::Report(notice@),
        }
    }
}

impl DeepView for Emission {
    type V = EmissionView;

    open spec fn deep_view(&self) -> EmissionView {
        self@
    }
}

/// How far the wait for the process has come.
#[derive(Clone, Debug, PartialEq, Eq)]
pub enum Wait {
    Pending,
    Exited { success: bool },
    Failed(String),
}

/// The mathematical value of a [`Wait`].
pub enum WaitView {
    Pending,
    Exited { success: bool },
    Failed(Seq<char>),
}

impl View for Wait {
    type V = WaitView;

    open spec fn view(&self) -> WaitView {
        match self {
            Wait::Pending => WaitView::Pending,
            Wait::Exited { success } => WaitView::Exited { success: *success },
            Wait::Failed(cause) => WaitView::Failed(cause@),
        }
    }
}

/// What is still going on around one running process.
#[derive(Clone, Debug, PartialEq, Eq)]
pub struct Drain {
    stdout_open: bool,
    stderr_open: bool,
    wait: Wait,
}

/// The mathematical value of a [`Drain`].
pub struct DrainView {
    pub stdout_open: bool,
    pub stderr_open: bool,
    pub wait: WaitView,
}

impl View for Drain {
    type V = DrainView;

    closed spec fn view(&self) -> DrainView {
        DrainView { stdout_open: self.stdout_open, stderr_open: self.stderr_open, wait: self.wait@ }
    }
}

/// The state in which a process has just been started.
pub open spec fn drain_start() -> DrainView {
    DrainView { stdout_open: true, stderr_open: true, wait: WaitView::Pending }
}

/// The state after `stream` has come to its end.
pub open spec fn drain_close(d: DrainView, stream: Stream) -> DrainView {
    match stream {
        Stream::Stdout => DrainView { stdout_open: false, ..d },
        Stream::Stderr => DrainView { stderr_open: false, ..d },
    }
}

/// The state after the wait has come to the end `wait`. The first end
/// counts: a process is waited for once.
pub open spec fn drain_settle(d: DrainView, wait: WaitView) -> DrainView {
    if d.wait is Pending {
        DrainView { wait, ..d }
    } else {
        d
    }
}

/// The state after one event. A line changes nothing; the end or the failure
/// of a stream closes that stream and leaves the other and the wait alone.
pub open spec fn drain_step(d: DrainView, event: DrainEventView) -> DrainView {
    match event {
        DrainEventView::Line { .. } => d,
        DrainEventView::Closed(stream) => drain_close(d, stream),
        DrainEventView::ReadFailed { stream, .. } => drain_close(d, stream),
        DrainEventView::Exited { success } => drain_settle(d, WaitView::Exited { success }),
        DrainEventView::WaitFailed(cause) => drain_settle(d, WaitView::Failed(cause)),
    }
}

/// The label under which a failure to read `stream` is reported.
pub open spec fn read_failure_label(stream: Stream) -> Seq<char> {
    match stream {
        Stream::Stdout => "Error reading stdout: "@,
        Stream::Stderr => "Error reading stderr: "@,
    }
}

/// What is shown for one event: every line, tagged with its stream, and a
/// report for every failure to read.
pub open spec fn drain_emission(event: DrainEventView) -> Option<EmissionView> {
    match event {
        DrainEventView::Line { stream, text } => Some(EmissionView::Line { stream, text }),
        DrainEventView::ReadFailed { stream, cause } => Some(
            EmissionView::Report(
                NoticeView { tone: Tone::Failure, text: read_failure_label(stream) + cause },
            ),
        ),
        _ => None,
    }
}

/// Whether both streams and the wait have settled.
pub open spec fn drain_settled(d: DrainView) -> bool {
    !d.stdout_open && !d.stderr_open && !(d.wait is Pending)
}

/// How the run ended, once everything has settled: the exit status decides,
/// whatever happened to the streams.
pub open spec fn drain_outcome(d: DrainView) -> Option<Result<(), VenvErrorView>> {
    if !drain_settled(d) {
        None
    } else {
        match d.wait {
            WaitView::Pending => None,
            WaitView::Exited { success } => if success {
                Some(Ok(()))
            } else {
                Some(Err(VenvErrorView::CommandFailed))
            },
            WaitView::Failed(cause) => Some(Err(VenvErrorView::Io(cause))),
        }
    }
}

/// The state after a sequence of events.
pub open spec fn drain_run(d: DrainView, events: Seq<DrainEventView>) -> DrainView
    decreases events.len(),
{
    if events.len() == 0 {
        d
    } else {
        drain_step(drain_run(d, events.drop_last()), events.last())
    }
}

/// Everything that is shown for a sequence of events, in order.
pub open spec fn drain_emissions(events: Seq<DrainEventView>) -> Seq<EmissionView>
    decreases events.len(),
{
    if events.len() == 0 {
        Seq::empty()
    } else {
        let before = drain_emissions(events.drop_last());
        match drain_emission(events.last()) {
            Some(emission) => before.push(emission),
            None => before,
        }
    }
}

/// The lines that were read from `stream`, in the order in which they were
/// read.
pub open spec fn lines_read(events: Seq<DrainEventView>, stream: Stream) -> Seq<Seq<char>>
    decreases events.len(),
{
    if events.len() == 0 {
        Seq::empty()
    } else {
        let before = lines_read(events.drop_last(), stream);
        match events.last() {
            DrainEventView::Line { stream: s, text } if s == stream => before.push(text),
            _ => before,
        }
    }
}

/// The lines that are shown for `stream`, in the order in which they are
/// shown.
pub open spec fn lines_shown(emissions: Seq<EmissionView>, stream: Stream) -> Seq<Seq<char>>
    decreases emissions.len(),
{
    if emissions.len() == 0 {
        Seq::empty()
    } else {
        let before = lines_shown(emissions.drop_last(), stream);
        match emissions.last() {
            EmissionView::Line { stream: s, text } if s == stream => before.push(text),
            _ => before,
        }
    }
}

/// How many lines are shown.
pub open spec fn count_lines(emissions: Seq<EmissionView>) -> nat
    decreases emissions.len(),
{
    if emissions.len() == 0 {
        0
    } else {
        let before = count_lines(emissions.drop_last());
        match emissions.last() {
            EmissionView::Line { .. } => before + 1,
            _ => before,
        }
    }
}

/// Draining keeps every stream intact: whatever the order in which the
/// events of the two streams arrive, the lines shown for a stream are the
/// lines read from it, in the order in which they were read.
pub proof fn lemma_drain_keeps_lines(events: Seq<DrainEventView>, stream: Stream)
    ensures
        lines_shown(drain_emissions(events), stream) == lines_read(events, stream),
    decreases events.len(),
{
    if events.len() > 0 {
        lemma_drain_keeps_lines(events.drop_last(), stream);
        let before = drain_emissions(events.drop_last());
        match drain_emission(events.last()) {
            Some(emission) => {
                assert(before.push(emission).drop_last() =~= before);
            },
            None => {},
        }
    }
}

/// Draining neither loses nor invents a line: as many lines are shown as
/// were read from the two streams together.
pub proof fn lemma_drain_counts_lines(events: Seq<DrainEventView>)
    ensures
        count_lines(drain_emissions(events)) == lines_read(events, Stream::Stdout).len()
            + lines_read(events, Stream::Stderr).len(),
    decreases events.len(),
{
    if events.len() > 0 {
        lemma_drain_counts_lines(events.drop_last());
        let before = drain_emissions(events.drop_last());
        match drain_emission(events.last()) {
            Some(emission) => {
                assert(before.push(emission).drop_last() =~= before);
            },
            None => {},
        }
    }
}

/// A run is over only when the end of both streams and the end of the
/// process have been seen; until then there is no outcome.
pub proof fn lemma_drain_waits_for_all(events: Seq<DrainEventView>)
    ensures
        drain_outcome(drain_run(drain_start(), events)) is Some <==> drain_settled(
            drain_run(drain_start(), events),
        ),
        drain_settled(drain_run(drain_start(), events)) ==> {
            &&& stream_ended(events, Stream::Stdout)
            &&& stream_ended(events, Stream::Stderr)
            &&& process_ended(events)
        },
    decreases events.len(),
{
    lemma_drain_tracks_ends(events);
}

/// Whether `event` is the end or the failure of `stream`.
pub open spec fn ends_stream(event: DrainEventView, stream: Stream) -> bool {
    match event {
        DrainEventView::Closed(s) => s == stream,
        DrainEventView::ReadFailed { stream: s, .. } => s == stream,
        _ => false,
    }
}

/// Whether `event` is the end of the process or of the wait for it.
pub open spec fn ends_process(event: DrainEventView) -> bool {
    event is Exited || event is WaitFailed
}

/// Whether the events hold the end or the failure of `stream`.
pub open spec fn stream_ended(events: Seq<DrainEventView>, stream: Stream) -> bool {
    exists|i: int| 0 <= i < events.len() && ends_stream(#[trigger] events[i], stream)
}

/// Whether the events hold the end of the process or of the wait for it.
pub open spec fn process_ended(events: Seq<DrainEventView>) -> bool {
    exists|i: int| 0 <= i < events.len() && ends_process(#[trigger] events[i])
}

proof fn lemma_drain_tracks_ends(events: Seq<DrainEventView>)
    ensures
        !drain_run(drain_start(), events).stdout_open ==> stream_ended(events, Stream::Stdout),
        !drain_run(drain_start(), events).stderr_open ==> stream_ended(events, Stream::Stderr),
        !(drain_run(drain_start(), events).wait is Pending) ==> process_ended(events),
    decreases events.len(),
{
    if events.len() > 0 {
        let before = events.drop_last();
        let last = events.len() - 1;
        lemma_drain_tracks_ends(before);
        if stream_ended(before, Stream::Stdout) {
            let i = choose|i: int|
                0 <= i < before.len() && ends_stream(#[trigger] before[i], Stream::Stdout);
            assert(events[i] == before[i]);
        }
        if stream_ended(before, Stream::Stderr) {
            let i = choose|i: int|
                0 <= i < before.len() && ends_stream(#[trigger] before[i], Stream::Stderr);
            assert(events[i] == before[i]);
        }
        if process_ended(before) {
            let i = choose|i: int| 0 <= i < before.len() && ends_process(#[trigger] before[i]);
            assert(events[i] == before[i]);
        }
        assert(events[last] == events.last());
    }
}

impl Drain {
    /// The drain of a process that has just been started.
    pub fn new() -> (drain: Drain)
        ensures
            drain@ == drain_start(),
    {
        Drain { stdout_open: true, stderr_open: true, wait: Wait::Pending }
    }

    fn close(&mut self, stream: Stream)
        ensures
            final(self)@ == drain_close(old(self)@, stream),
    {
        match stream {
            Stream::Stdout => {
                self.stdout_open = false;
            },
            Stream::Stderr => {
                self.stderr_open = false;
            },
        }
    }

    fn settle(&mut self, wait: Wait)
        ensures
            final(self)@ == drain_settle(old(self)@, wait@),
    {
        let pending = match self.wait {
            Wait::Pending => true,
            _ => false,
        };
        if pending {
            self.wait = wait;
        }
    }

    /// Takes in one event and says what is to be shown for it.
    pub fn step(&mut self, event: &DrainEvent) -> (emission: Option<Emission>)
        ensures
            final(self)@ == drain_step(old(self)@, event@),
            emission.deep_view() == drain_emission(event@),
    {
        match event {
            DrainEvent::Line { stream, text } => Some(
                Emission::Line { stream: *stream, text: text.clone() },
            ),
            DrainEvent::Closed(stream) => {
                self.close(*stream);
                None
            },
            DrainEvent::ReadFailed { stream, cause } => {
                self.close(*stream);
                let notice = match stream {
                    Stream::Stdout => Notice::labelled(
                        Tone::Failure,
                        "Error reading stdout: ",
                        cause.as_str(),
                    ),
                    Stream::Stderr => Notice::labelled(
                        Tone::Failure,
                        "Error reading stderr: ",
                        cause.as_str(),
                    ),
                };
                Some(Emission::Report(notice))
            },
            DrainEvent::Exited { success } => {
                self.settle(Wait::Exited { success: *success });
                None
            },
            DrainEvent::WaitFailed(cause) => {
                self.settle(Wait::Failed(cause.clone()));
                None
            },
        }
    }

    /// Whether both streams and the wait have settled, so that the run is
    /// over.
    pub fn settled(&self) -> (over: bool)
        ensures
            over == drain_settled(self@),
    {
        let pending = match self.wait {
            Wait::Pending => true,
            _ => false,
        };
        !self.stdout_open && !self.stderr_open && !pending
    }

    /// How the run ended: nothing while anything is still open; then success
    /// for a success status, `CommandFailed` for a failure status, and the
    /// cause where the process could not be waited for.
    pub fn outcome(&self) -> (outcome: Option<Result<(), VenvError>>)
        ensures
            outcome_view(outcome) == drain_outcome(self@),
    {
        if !self.settled() {
            return None;
        }
        match &self.wait {
            Wait::Pending => None,
            Wait::Exited { success } => if *success {
                Some(Ok(()))
            } else {
                Some(Err(VenvError::CommandFailed))
            },
            Wait::Failed(cause) => Some(Err(VenvError::Io(cause.clone()))),
        }
    }
}

/// The value of what [`Drain::outcome`] returns.
pub open spec fn outcome_view(outcome: Option<Result<(), VenvError>>) -> Option<
    Result<(), VenvErrorView>,
> {
    match outcome {
        None => None,
        Some(Ok(())) => Some(Ok(())),
        Some(Err(e)) => Some(Err(e@)),
    }
}

} // verus!
