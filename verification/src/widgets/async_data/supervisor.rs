//! The background worker: how it leaves the shell behind, what it writes
//! and in which order. The steps are decided here, one at a time; the
//! program carries each one out and reports how it went.

use vstd::prelude::*;
use vstd::string::*;

use crate::formatting::{FG_GREEN, FG_MAGENTA, SGR_RESET};
use crate::widgets::async_data::placeholder::FRAME_MILLIS;
use crate::widgets::async_data::record::{RecordView, StatusRecord};
use crate::widgets::async_data::session::Session;

verus! {

/// The program that the probe runs.
pub const PROBE_PROGRAM: &'static str = "git";

/// What the probe asks of its program: the changes in the working tree.
pub const PROBE_COMMAND: &'static str = "status";

/// The form in which the probe asks for the changes: one line for each,
/// and nothing else.
pub const PROBE_FORMAT: &'static str = "--porcelain";

/// What the probe found out about the repository.
#[derive(Debug, Clone, Copy, PartialEq, Eq)]
pub enum Classification {
    /// Nothing has changed.
    Clean,
    /// Something has changed.
    Dirty,
    /// The probe did not tell.
    Unknown,
}

/// What came of one run of the probe command.
#[derive(Debug, PartialEq, Eq)]
pub struct ProbeReport {
    /// Whether the command ended with success.
    pub success: bool,
    /// What the command printed: one line for each change.
    pub output: Vec<u8>,
}

/// What a run of the probe says about the repository. A probe that could
/// not be run (`None`) or that failed says nothing; one that ran says
/// `Clean` if it printed nothing.
pub open spec fn classification_of(report: Option<ProbeReport>) -> Classification {
    match report {
        Some(report) => if !report.success {
            Classification::Unknown
        } else if report.output@.len() == 0 {
            Classification::Clean
        } else {
            Classification::Dirty
        },
        None => Classification::Unknown,
    }
}

/// The status text that stands for a classification: the colour in which
/// the prompt goes on.
pub open spec fn token(classification: Classification) -> Seq<char> {
    match classification {
        Classification::Clean => FG_GREEN@,
        Classification::Dirty => FG_MAGENTA@,
        Classification::Unknown => SGR_RESET@,
    }
}

/// What a run of the probe says about the repository.
pub fn classify(report: Option<ProbeReport>) -> (r: Classification)
    ensures
        r == classification_of(report),
{
    match report {
        Some(report) => if !report.success {
            Classification::Unknown
        } else if report.output.len() == 0 {
            Classification::Clean
        } else {
            Classification::Dirty
        },
        None => Classification::Unknown,
    }
}

/// The status text that stands for `classification`.
pub fn payload_of(classification: Classification) -> (r: &'static str)
    ensures
        r@ == token(classification),
{
    match classification {
        Classification::Clean => FG_GREEN,
        Classification::Dirty => FG_MAGENTA,
        Classification::Unknown => SGR_RESET,
    }
}

/// The record that the worker `own_pid` writes first for `session`: a
/// pending one with its own process id. `None` where `own_pid` is no
/// process id.
pub fn write_initial_async_data(session: Session, own_pid: i32) -> (r: Option<StatusRecord>)
    ensures
        r is Some <==> own_pid > 0,
        r matches Some(record) ==> record@ == RecordView::pending(own_pid, session.generation),
{
    StatusRecord::pending(own_pid, session.generation)
}

/// The record that a worker writes last for `session`: a resolved one, of
/// the same generation, with the status that `classification` stands for.
pub fn run_job(session: Session, classification: Classification) -> (r: StatusRecord)
    ensures
        r@ == RecordView::resolved(session.generation, token(classification)),
{
    StatusRecord::resolved(session.generation, String::from_str(payload_of(classification)))
}

/// Where a process of the worker's lineage stands: which step it was last
/// told to take.
#[derive(Debug, Clone, Copy, PartialEq, Eq)]
pub enum Stage {
    /// The drawing process has not begun to start a worker.
    Idle,
    /// The drawing process opens the channel.
    Opening,
    /// The drawing process detaches a child.
    Forking,
    /// The drawing process closes its writing end of the channel.
    Releasing,
    /// The drawing process waits for the channel to be closed.
    Waiting,
    /// The drawing process is done with the worker and draws on.
    Returned,
    /// The detached child closes its reading end of the channel.
    Severing,
    /// The detached child detaches the worker.
    Reforking,
    /// The worker makes a session of its own.
    Settling,
    /// The worker writes the pending record.
    Announcing,
    /// The worker closes the channel: it can now take signals.
    Signalling,
    /// The worker starts the ticker.
    Starting,
    /// The worker runs the probe.
    Probing,
    /// The worker writes the resolved record.
    Resolving,
    /// The worker asks the shell to draw the prompt once more.
    Notifying,
    /// The process has ended.
    Exited,
}

/// How the step that a process was told to take went.
#[derive(Debug, Clone, Copy, PartialEq, Eq)]
pub enum Event {
    /// Nothing was asked yet.
    Begin,
    /// The step was taken.
    Done,
    /// The step could not be taken.
    Failed,
    /// After a detachment: this is the process that stays behind.
    Stayed,
    /// After a detachment: this is the detached process.
    Detached,
    /// The session was made, and `pid` is the process id of its leader,
    /// which is this process.
    Leading { pid: i32 },
    /// The probe has come to an end.
    Probed { classification: Classification },
}

/// The step that a process is told to take.
#[derive(Debug, PartialEq, Eq)]
pub enum Command {
    /// Open a one-way channel.
    OpenChannel,
    /// Detach a process that leaves the process group of this one; it keeps
    /// the three standard streams open unless `close_streams` is set.
    Detach { close_streams: bool },
    /// Close the end of the channel that is read from.
    CloseReadEnd,
    /// Close the end of the channel that is written to.
    CloseWriteEnd,
    /// Wait until the channel is closed at its writing end.
    AwaitReady,
    /// Make a new session with this process as its leader.
    NewSession,
    /// Put the record in place of the one on disk.
    Write(StatusRecord),
    /// From now on send the redraw signal to `shell_pid` every `period`
    /// milliseconds, for as long as this process lives.
    StartTicker { shell_pid: i32, period: u64 },
    /// Run the probe.
    Probe,
    /// Send the redraw signal to `shell_pid`, once.
    Redraw { shell_pid: i32 },
    /// Go on with the drawing of the prompt.
    Return,
    /// End this process.
    Exit,
}

/// A command as a mathematical value.
pub enum CommandView {
    OpenChannel,
    Detach { close_streams: bool },
    CloseReadEnd,
    CloseWriteEnd,
    AwaitReady,
    NewSession,
    Write(RecordView),
    StartTicker { shell_pid: i32, period: u64 },
    Probe,
    Redraw { shell_pid: i32 },
    Return,
    Exit,
}

impl View for Command {
    type V = CommandView;

    open spec fn view(&self) -> CommandView {
        match self {
            Command::OpenChannel => CommandView::OpenChannel,
            Command::Detach { close_streams } => CommandView::Detach {
                close_streams: *close_streams,
            },
            Command::CloseReadEnd => CommandView::CloseReadEnd,
            Command::CloseWriteEnd => CommandView::CloseWriteEnd,
            Command::AwaitReady => CommandView::AwaitReady,
            Command::NewSession => CommandView::NewSession,
            Command::Write(record) => CommandView::Write(record@),
            Command::StartTicker { shell_pid, period } => CommandView::StartTicker {
                shell_pid: *shell_pid,
                period: *period,
            },
            Command::Probe => CommandView::Probe,
            Command::Redraw { shell_pid } => CommandView::Redraw { shell_pid: *shell_pid },
            Command::Return => CommandView::Return,
            Command::Exit => CommandView::Exit,
        }
    }
}

/// The stage that follows `stage` when `event` is reported, and the step to
/// take then.
///
/// The drawing process opens the channel, detaches a child, closes its own
/// writing end and waits; where a step fails it gives the worker up and
/// draws on. The detached child closes its reading end and detaches the
/// worker, and ends at once. The worker makes its session, writes the
/// pending record with its own process id, closes the channel, starts the
/// ticker, runs the probe, writes the resolved record, asks for one more
/// redraw and ends. Before the pending record is written a failure ends the
/// worker; after that nothing keeps it from writing the resolved one.
pub open spec fn next(session: Session, stage: Stage, event: Event) -> (Stage, CommandView) {
    match stage {
        Stage::Idle => match event {
            Event::Begin => (Stage::Opening, CommandView::OpenChannel),
            _ => (Stage::Returned, CommandView::Return),
        },
        Stage::Opening => match event {
            Event::Done => (Stage::Forking, CommandView::Detach { close_streams: false }),
            _ => (Stage::Returned, CommandView::Return),
        },
        Stage::Forking => match event {
            Event::Detached => (Stage::Severing, CommandView::CloseReadEnd),
            _ => (Stage::Releasing, CommandView::CloseWriteEnd),
        },
        Stage::Releasing => match event {
            Event::Done => (Stage::Waiting, CommandView::AwaitReady),
            _ => (Stage::Returned, CommandView::Return),
        },
        Stage::Waiting => (Stage::Returned, CommandView::Return),
        Stage::Returned => (Stage::Returned, CommandView::Return),
        Stage::Severing => match event {
            Event::Done => (Stage::Reforking, CommandView::Detach { close_streams: true }),
            _ => (Stage::Exited, CommandView::Exit),
        },
        Stage::Reforking => match event {
            Event::Detached => (Stage::Settling, CommandView::NewSession),
            _ => (Stage::Exited, CommandView::Exit),
        },
        Stage::Settling => match event {
            Event::Leading { pid } => if pid > 0 {
                (
                    Stage::Announcing,
                    CommandView::Write(RecordView::pending(pid, session.generation)),
                )
            } else {
                (Stage::Exited, CommandView::Exit)
            },
            _ => (Stage::Exited, CommandView::Exit),
        },
        Stage::Announcing => match event {
            Event::Done => (Stage::Signalling, CommandView::CloseWriteEnd),
            _ => (Stage::Exited, CommandView::Exit),
        },
        Stage::Signalling => (
            Stage::Starting,
            CommandView::StartTicker { shell_pid: session.shell_pid, period: FRAME_MILLIS },
        ),
        Stage::Starting => (Stage::Probing, CommandView::Probe),
        Stage::Probing => (
            Stage::Resolving,
            CommandView::Write(
                RecordView::resolved(session.generation, token(reported(event))),
            ),
        ),
        Stage::Resolving => (
            Stage::Notifying,
            CommandView::Redraw { shell_pid: session.shell_pid },
        ),
        Stage::Notifying => (Stage::Exited, CommandView::Exit),
        Stage::Exited => (Stage::Exited, CommandView::Exit),
    }
}

/// What `event` says about the repository: what the probe found, and
/// nothing if it is no report of a probe.
pub open spec fn reported(event: Event) -> Classification {
    match event {
        Event::Probed { classification } => classification,
        _ => Classification::Unknown,
    }
}

/// Takes a process of the worker's lineage one step further: from where it
/// stands and how its last step went to where it stands next and what it
/// is to do.
pub fn step(session: Session, stage: Stage, event: Event) -> (r: (Stage, Command))
    ensures
        (r.0, r.1@) == next(session, stage, event),
{
    match stage {
        Stage::Idle => match event {
            Event::Begin => (Stage::Opening, Command::OpenChannel),
            _ => (Stage::Returned, Command::Return),
        },
        Stage::Opening => match event {
            Event::Done => (Stage::Forking, Command::Detach { close_streams: false }),
            _ => (Stage::Returned, Command::Return),
        },
        Stage::Forking => match event {
            Event::Detached => (Stage::Severing, Command::CloseReadEnd),
            _ => (Stage::Releasing, Command::CloseWriteEnd),
        },
        Stage::Releasing => match event {
            Event::Done => (Stage::Waiting, Command::AwaitReady),
            _ => (Stage::Returned, Command::Return),
        },
        Stage::Waiting => (Stage::Returned, Command::Return),
        Stage::Returned => (Stage::Returned, Command::Return),
        Stage::Severing => match event {
            Event::Done => (Stage::Reforking, Command::Detach { close_streams: true }),
            _ => (Stage::Exited, Command::Exit),
        },
        Stage::Reforking => match event {
            Event::Detached => (Stage::Settling, Command::NewSession),
            _ => (Stage::Exited, Command::Exit),
        },
        Stage::Settling => match event {
            Event::Leading { pid } => match write_initial_async_data(session, pid) {
                Some(record) => (Stage::Announcing, Command::Write(record)),
                None => (Stage::Exited, Command::Exit),
            },
            _ => (Stage::Exited, Command::Exit),
        },
        Stage::Announcing => match event {
            Event::Done => (Stage::Signalling, Command::CloseWriteEnd),
            _ => (Stage::Exited, Command::Exit),
        },
        Stage::Signalling => (
            Stage::Starting,
            Command::StartTicker { shell_pid: session.shell_pid, period: FRAME_MILLIS },
        ),
        Stage::Starting => (Stage::Probing, Command::Probe),
        Stage::Probing => {
            let classification = match event {
                Event::Probed { classification } => classification,
                _ => Classification::Unknown,
            };
            (Stage::Resolving, Command::Write(run_job(session, classification)))
        },
        Stage::Resolving => (Stage::Notifying, Command::Redraw { shell_pid: session.shell_pid }),
        Stage::Notifying => (Stage::Exited, Command::Exit),
        Stage::Exited => (Stage::Exited, Command::Exit),
    }
}

/// The steps that a process is told to take when, from `stage` on, its
/// steps go as `events` say, one after the other.
pub open spec fn run(session: Session, stage: Stage, events: Seq<Event>) -> Seq<CommandView>
    decreases events.len(),
{
    if events.len() == 0 {
        Seq::empty()
    } else {
        seq![next(session, stage, events[0]).1] + run(
            session,
            next(session, stage, events[0]).0,
            events.skip(1),
        )
    }
}

/// A run of one more event begins with the step for the first event.
proof fn lemma_run_unfolds(session: Session, stage: Stage, first: Event, rest: Seq<Event>)
    ensures
        run(session, stage, seq![first] + rest) == seq![next(session, stage, first).1] + run(
            session,
            next(session, stage, first).0,
            rest,
        ),
{
    assert((seq![first] + rest).skip(1) == rest);
}

/// Where every step succeeds, the drawing process opens the channel,
/// detaches a child, closes its writing end, waits for the worker to be
/// ready and draws on.
pub proof fn lemma_drawing_process_waits_for_the_worker(session: Session)
    ensures
        run(
            session,
            Stage::Idle,
            seq![Event::Begin, Event::Done, Event::Stayed, Event::Done, Event::Done],
        ) == seq![
            CommandView::OpenChannel,
            CommandView::Detach { close_streams: false },
            CommandView::CloseWriteEnd,
            CommandView::AwaitReady,
            CommandView::Return,
        ],
{
    let done = Event::Done;
    lemma_run_unfolds(session, Stage::Idle, Event::Begin, seq![done, Event::Stayed, done, done]);
    lemma_run_unfolds(session, Stage::Opening, done, seq![Event::Stayed, done, done]);
    lemma_run_unfolds(session, Stage::Forking, Event::Stayed, seq![done, done]);
    lemma_run_unfolds(session, Stage::Releasing, done, seq![done]);
    lemma_run_unfolds(session, Stage::Waiting, done, Seq::empty());
    assert(seq![Event::Begin] + seq![done, Event::Stayed, done, done] == seq![
        Event::Begin,
        done,
        Event::Stayed,
        done,
        done,
    ]);
    assert(seq![done] + seq![Event::Stayed, done, done] == seq![done, Event::Stayed, done, done]);
    assert(seq![Event::Stayed] + seq![done, done] == seq![Event::Stayed, done, done]);
    assert(seq![done] + seq![done] == seq![done, done]);
    assert(seq![done] + Seq::<Event>::empty() == seq![done]);
}

/// The detached child closes its reading end, detaches the worker and
/// ends at once.
pub proof fn lemma_detached_child_ends_at_once(session: Session)
    ensures
        run(session, Stage::Forking, seq![Event::Detached, Event::Done, Event::Stayed]) == seq![
            CommandView::CloseReadEnd,
            CommandView::Detach { close_streams: true },
            CommandView::Exit,
        ],
{
    lemma_run_unfolds(session, Stage::Forking, Event::Detached, seq![Event::Done, Event::Stayed]);
    lemma_run_unfolds(session, Stage::Severing, Event::Done, seq![Event::Stayed]);
    lemma_run_unfolds(session, Stage::Reforking, Event::Stayed, Seq::empty());
    assert(seq![Event::Detached] + seq![Event::Done, Event::Stayed] == seq![
        Event::Detached,
        Event::Done,
        Event::Stayed,
    ]);
    assert(seq![Event::Done] + seq![Event::Stayed] == seq![Event::Done, Event::Stayed]);
    assert(seq![Event::Stayed] + Seq::<Event>::empty() == seq![Event::Stayed]);
}

/// Where every step succeeds, the worker `pid` makes its session, writes
/// the pending record with its own process id, closes the channel, starts
/// the ticker, runs the probe, writes the resolved record of the same
/// generation with the status that the probe found, asks for one more
/// redraw and ends.
pub proof fn lemma_worker_protocol(session: Session, pid: i32, classification: Classification)
    requires
        pid > 0,
    ensures
        run(
            session,
            Stage::Reforking,
            seq![
                Event::Detached,
                Event::Leading { pid },
                Event::Done,
                Event::Done,
                Event::Done,
                Event::Probed { classification },
                Event::Done,
                Event::Done,
            ],
        ) == seq![
            CommandView::NewSession,
            CommandView::Write(RecordView::pending(pid, session.generation)),
            CommandView::CloseWriteEnd,
            CommandView::StartTicker { shell_pid: session.shell_pid, period: 100 },
            CommandView::Probe,
            CommandView::Write(RecordView::resolved(session.generation, token(classification))),
            CommandView::Redraw { shell_pid: session.shell_pid },
            CommandView::Exit,
        ],
{
    let done = Event::Done;
    let leading = Event::Leading { pid };
    let probed = Event::Probed { classification };
    let tail6 = seq![done, done, done, probed, done, done];
    let tail5 = seq![done, done, probed, done, done];
    let tail4 = seq![done, probed, done, done];
    let tail3 = seq![probed, done, done];
    let tail2 = seq![done, done];
    let tail1 = seq![done];
    lemma_run_unfolds(session, Stage::Reforking, Event::Detached, seq![leading] + tail6);
    lemma_run_unfolds(session, Stage::Settling, leading, tail6);
    lemma_run_unfolds(session, Stage::Announcing, done, tail5);
    lemma_run_unfolds(session, Stage::Signalling, done, tail4);
    lemma_run_unfolds(session, Stage::Starting, done, tail3);
    lemma_run_unfolds(session, Stage::Probing, probed, tail2);
    lemma_run_unfolds(session, Stage::Resolving, done, tail1);
    lemma_run_unfolds(session, Stage::Notifying, done, Seq::empty());
    assert(seq![Event::Detached] + (seq![leading] + tail6) == seq![
        Event::Detached,
        leading,
        done,
        done,
        done,
        probed,
        done,
        done,
    ]);
    assert(seq![done] + tail5 == tail6);
    assert(seq![done] + tail4 == tail5);
    assert(seq![done] + tail3 == tail4);
    assert(seq![probed] + tail2 == tail3);
    assert(seq![done] + tail1 == tail2);
    assert(seq![done] + Seq::<Event>::empty() == tail1);
}

/// Once the pending record is written, the worker goes on to write the
/// resolved one, however its steps go: it starts the ticker, runs the probe
/// and writes a record of the same generation with the status that the
/// probe stands for, or the neutral one if the probe did not tell.
pub proof fn lemma_never_left_pending(session: Session, first: Event, second: Event, third: Event)
    ensures
        next(session, Stage::Signalling, first) == (
            Stage::Starting,
            CommandView::StartTicker { shell_pid: session.shell_pid, period: 100 },
        ),
        next(session, Stage::Starting, second) == (Stage::Probing, CommandView::Probe),
        next(session, Stage::Probing, third) == (
            Stage::Resolving,
            CommandView::Write(RecordView::resolved(session.generation, token(reported(third)))),
        ),
{
}

/// Every record that a worker is told to write is valid and of the
/// generation of its session.
pub proof fn lemma_written_records_are_valid(session: Session, stage: Stage, event: Event)
    ensures
        next(session, stage, event).1 matches CommandView::Write(record) ==> record.valid()
            && record.generation == session.generation,
{
}

/// A process ends only as the detached child, as a worker that could not
/// begin, or as a worker that has written the resolved record and asked for
/// the last redraw.
pub proof fn lemma_exit_points(session: Session, stage: Stage, event: Event)
    requires
        next(session, stage, event).0 is Exited,
    ensures
        stage is Severing || stage is Reforking || stage is Settling || stage is Announcing
            || stage is Notifying || stage is Exited,
{
}

/// One replacement of the record on disk: the worker that made it, and the
/// record.
pub struct Replacement {
    pub worker: int,
    pub record: RecordView,
}

/// Whether `record` is one that a worker for `generation` writes.
pub open spec fn written_for(record: RecordView, generation: u32) -> bool {
    &&& record.valid()
    &&& record.generation == generation
    &&& record.is_resolved() ==> exists|classification: Classification|
        record.payload == Some(#[trigger] token(classification))
}

/// Whether `history` is what some workers for `generation` did to the
/// record on disk, in the order in which it happened, all of them having
/// come to their end: every worker that wrote its pending record wrote its
/// resolved one later.
pub open spec fn complete_history(history: Seq<Replacement>, generation: u32) -> bool {
    &&& forall|i: int|
        0 <= i < history.len() ==> written_for((#[trigger] history[i]).record, generation)
    &&& forall|i: int|
        0 <= i < history.len() && (#[trigger] history[i]).record.is_pending() ==> exists|j: int|
            i < j < history.len() && (#[trigger] history[j]).worker == history[i].worker
                && history[j].record.is_resolved()
}

/// However the writes of several workers of one generation fall among each
/// other, once all of them have come to their end the record on disk is a
/// resolved one of that generation and holds the status of a classification.
pub proof fn lemma_last_write_is_resolved(history: Seq<Replacement>, generation: u32)
    requires
        history.len() > 0,
        complete_history(history, generation),
    ensures
        history.last().record.is_resolved(),
        history.last().record.owner_pid is None,
        history.last().record.generation == generation,
        exists|classification: Classification|
            history.last().record.payload == Some(#[trigger] token(classification)),
{
    let last = history.len() - 1;
    assert(written_for(history[last].record, generation));
    if history[last].record.is_pending() {
        let j = choose|j: int|
            last < j < history.len() && (#[trigger] history[j]).worker == history[last].worker
                && history[j].record.is_resolved();
        assert(false);
    }
}

} // verus!
