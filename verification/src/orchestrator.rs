//! The format orchestrator: the state machine of a format job.
//!
//! The orchestrator decides; it performs nothing. Its owner asks the disk
//! service what the orchestrator tells it to ask, hands the answers back,
//! and puts the events that each step returns on the event bus, in order.
//! A format runs through `start`, `dispatch` and `job_started`, then
//! through one `forward` for each item of the job's event stream, the end
//! of the stream being the last item. A request to cancel runs through
//! `cancel` and `cancel_finished`, and `abandon` ends a format from
//! outside. `Step`, `next_state` and `emitted` say the same of every step
//! in one place, for what is stated of whole runs.

use vstd::prelude::*;

use crate::backends::udisks::{to_ud_opts, TypedFormatOptions, TypedFormatOptionsView};
use crate::backends::{
    fs_kind, BlockDevice, FormatOptions, FormatOptionsView, JobEvent, JobEventView,
    PartitionTable, ProgressEvent, ProgressEventView,
};
use crate::common::Msg;
use crate::text::holds;
use crate::utils::{build_format_options, request_error, stored_label};

verus! {

/// Where a format job stands.
#[derive(Debug, PartialEq, Eq)]
pub enum OrchestratorState {
    /// No job: a format may be started.
    Idle,
    /// A format was asked for and the disk service has not yet named a job.
    Starting,
    /// The disk service runs the job `job_id`.
    Formatting { job_id: String },
}

/// What an `OrchestratorState` holds, as plain values.
pub enum StateView {
    Idle,
    Starting,
    Formatting { job_id: Seq<char> },
}

impl View for OrchestratorState {
    type V = StateView;

    open spec fn view(&self) -> StateView {
        match *self {
            OrchestratorState::Idle => StateView::Idle,
            OrchestratorState::Starting => StateView::Starting,
            OrchestratorState::Formatting { job_id } => StateView::Formatting { job_id: job_id@ },
        }
    }
}

impl Clone for OrchestratorState {
    fn clone(&self) -> (r: OrchestratorState)
        ensures
            r == *self,
    {
        match self {
            OrchestratorState::Idle => OrchestratorState::Idle,
            OrchestratorState::Starting => OrchestratorState::Starting,
            OrchestratorState::Formatting { job_id } => OrchestratorState::Formatting {
                job_id: job_id.clone(),
            },
        }
    }
}

/// Why a format was not started.
#[derive(Debug, PartialEq, Eq)]
pub enum StartError {
    /// Another format is being started or is running.
    Busy,
    /// The request breaks a rule; the text says which.
    Invalid(String),
    /// The disk service refused; the text is its own.
    Backend(String),
    /// The format was given up before the disk service named a job.
    Abandoned,
}

/// What a `StartError` holds, as plain values.
pub enum StartErrorView {
    Busy,
    Invalid(Seq<char>),
    Backend(Seq<char>),
    Abandoned,
}

impl View for StartError {
    type V = StartErrorView;

    open spec fn view(&self) -> StartErrorView {
        match *self {
            StartError::Busy => StartErrorView::Busy,
            StartError::Invalid(reason) => StartErrorView::Invalid(reason@),
            StartError::Backend(reason) => StartErrorView::Backend(reason@),
            StartError::Abandoned => StartErrorView::Abandoned,
        }
    }
}

impl StartErrorView {
    /// What is said of a format that was not started.
    pub open spec fn message(self) -> Seq<char> {
        match self {
            StartErrorView::Busy => "a format is already running"@,
            StartErrorView::Invalid(reason) => reason,
            StartErrorView::Backend(reason) => reason,
            StartErrorView::Abandoned => "cancelled"@,
        }
    }
}

impl StartError {
    /// What is said of a format that was not started: the reason where
    /// there is one, that another format is under way, or that the format
    /// was given up.
    pub fn message(&self) -> (r: String)
        ensures
            r@ == self@.message(),
    {
        match self {
            StartError::Busy => String::from_str("a format is already running"),
            StartError::Invalid(reason) => reason.clone(),
            StartError::Backend(reason) => reason.clone(),
            StartError::Abandoned => String::from_str("cancelled"),
        }
    }
}

/// Why a job was not cancelled: the disk service's own words.
#[derive(Debug, PartialEq, Eq)]
pub struct CancelError(pub String);

/// Why the devices could not be listed: the disk service's own words.
#[derive(Debug, PartialEq, Eq)]
pub struct ListError(pub String);

/// A request that passed the rules, in the form that the disk service
/// takes, with the device that it is for.
#[derive(Debug, PartialEq, Eq)]
pub struct Preflight {
    pub target: String,
    pub table: Option<PartitionTable>,
    pub options: TypedFormatOptions,
}

/// What to ask of the disk service.
#[derive(Debug, PartialEq, Eq)]
pub enum FormatCall {
    /// Format the partition `target`.
    Partition { target: String, options: TypedFormatOptions },
    /// Write a partition table to the disk `target`, then format its first
    /// partition.
    WholeDisk {
        target: String,
        table: PartitionTable,
        options: TypedFormatOptions,
        wait_for_partition: bool,
    },
}

/// What a `FormatCall` holds, as plain values.
pub enum FormatCallView {
    Partition { target: Seq<char>, options: TypedFormatOptionsView },
    WholeDisk {
        target: Seq<char>,
        table: PartitionTable,
        options: TypedFormatOptionsView,
        wait_for_partition: bool,
    },
}

impl View for FormatCall {
    type V = FormatCallView;

    open spec fn view(&self) -> FormatCallView {
        match *self {
            FormatCall::Partition { target, options } => FormatCallView::Partition {
                target: target@,
                options: options@,
            },
            FormatCall::WholeDisk {
                target,
                table,
                options,
                wait_for_partition,
            } => FormatCallView::WholeDisk {
                target: target@,
                table,
                options: options@,
                wait_for_partition,
            },
        }
    }
}

impl FormatCallView {
    /// The device that the call names.
    pub open spec fn target(self) -> Seq<char> {
        match self {
            FormatCallView::Partition { target, .. } => target,
            FormatCallView::WholeDisk { target, .. } => target,
        }
    }
}

/// The disk service's answer to a format call that it took: the job that it
/// runs, and the partition that it made where it was given a whole disk.
#[derive(Debug, PartialEq, Eq)]
pub struct Acknowledged {
    pub job_id: String,
    pub new_partition: Option<String>,
}

/// A running job: its identifier at the disk service, and the partition
/// that is being formatted.
#[derive(Debug, PartialEq, Eq)]
pub struct JobHandle {
    pub id: String,
    pub target: String,
}

/// The job that runs: its identifier at the disk service, the partition
/// that is being formatted, and how far the work is, from 0 to 100.
#[derive(Debug, PartialEq, Eq)]
pub struct Job {
    pub id: String,
    pub target: String,
    pub progress: u8,
}

/// What a `Job` holds, as plain values.
pub struct JobView {
    pub id: Seq<char>,
    pub target: Seq<char>,
    pub progress: u8,
}

impl View for Job {
    type V = JobView;

    open spec fn view(&self) -> JobView {
        JobView { id: self.id@, target: self.target@, progress: self.progress }
    }
}

impl Clone for Job {
    fn clone(&self) -> (r: Job)
        ensures
            r == *self,
    {
        Job { id: self.id.clone(), target: self.target.clone(), progress: self.progress }
    }
}

/// Why a format is given up from outside.
#[derive(Debug, PartialEq, Eq)]
pub enum Abandon {
    /// Whoever asked for the format no longer waits for it.
    Dropped,
    /// The task that ran the format failed; the text says how.
    Panicked(String),
}

/// What is reported of a format that is given up.
pub open spec fn abandon_text(cause: Abandon) -> Seq<char> {
    match cause {
        Abandon::Dropped => "cancelled"@,
        Abandon::Panicked(how) => "internal error: "@ + how@,
    }
}

/// What one step of the orchestrator does next about a cancellation.
#[derive(Debug, PartialEq, Eq)]
pub enum CancelStep {
    /// No job runs: there is nothing to cancel, and nothing is reported.
    Done,
    /// Ask the disk service to cancel the job `job_id`.
    Ask { job_id: String },
}

/// What is reported while a partition table is made.
pub open spec fn creating_table_text() -> Seq<char> {
    "Creating partition table..."@
}

/// What is reported when the new partition is about to be formatted.
pub open spec fn formatting_partition_text() -> Seq<char> {
    "Formatting partition..."@
}

/// What is said of a cancellation that the disk service refused.
pub open spec fn cancel_failed_text(reason: Seq<char>) -> Seq<char> {
    "Cancel failed: "@ + reason
}

/// What is reported of a job whose event stream ends before the job does.
pub open spec fn stream_ended_text() -> Seq<char> {
    "backend ended job without completion"@
}

/// The table that a whole disk gets: the one that was asked for, or GPT.
pub open spec fn table_or_default(table: Option<PartitionTable>) -> PartitionTable {
    match table {
        Some(t) => t,
        None => PartitionTable::Gpt,
    }
}

/// A percentage brought into the range from 0 to 100.
pub open spec fn clamp_percent(p: i64) -> u8 {
    if p < 0 {
        0
    } else if p > 100 {
        100
    } else {
        p as u8
    }
}

/// The request in the form that the disk service takes, or what is wrong
/// with it. The empty label is sent as no label.
pub open spec fn preflight(req: FormatOptionsView) -> Result<TypedFormatOptionsView, Seq<char>> {
    match request_error(req.fs, req.label, req.cluster_or_block_size) {
        Some(e) => Err(e),
        None => Ok(
            TypedFormatOptionsView {
                kind: fs_kind(req.fs)->0,
                label: stored_label(req.label),
                unit: req.cluster_or_block_size,
                quick: req.quick,
            },
        ),
    }
}

/// What is reported for one item of a job's event stream; `None` stands
/// for the end of the stream.
pub open spec fn forwarded(item: Option<JobEventView>) -> ProgressEventView {
    match item {
        Some(JobEventView::Percent(p)) => ProgressEventView::Percent(clamp_percent(p)),
        Some(JobEventView::RateBytesPerSec(r)) => ProgressEventView::RateBytesPerSec(r),
        Some(JobEventView::Completed(outcome)) => ProgressEventView::Completed(outcome),
        None => ProgressEventView::Completed(Err(stream_ended_text())),
    }
}

impl StateView {
    /// Where the job stands for one who sees `ev`: a job that starts is
    /// running, and after the end of a job there is none.
    pub open spec fn after(self, ev: ProgressEventView) -> StateView {
        match ev {
            ProgressEventView::JobStarted(job_id) => StateView::Formatting { job_id },
            ProgressEventView::Completed(_) => StateView::Idle,
            _ => self,
        }
    }
}

/// Whether an item ends the job: its completion, or the end of the stream.
pub open spec fn is_terminal(item: Option<JobEventView>) -> bool {
    match item {
        Some(JobEventView::Completed(_)) => true,
        Some(_) => false,
        None => true,
    }
}

/// One step of the orchestrator, as its owner drives it.
pub enum Step {
    /// `start` with a request.
    Start(FormatOptionsView),
    /// `dispatch` with the disk service's answer to whether the target is a
    /// partition.
    Dispatch(Result<bool, Seq<char>>),
    /// `job_started` after a call for a whole disk or for a partition, with
    /// the job that the disk service named or its refusal.
    Started { whole_disk: bool, reply: Result<Seq<char>, Seq<char>> },
    /// `forward` with one item of the event stream.
    Forward(Option<JobEventView>),
    /// `cancel`, and a cancellation that the disk service took.
    Cancel,
    /// `abandon`, with what is reported of it.
    Abandon(Seq<char>),
}

/// The state after a step. A step that the state does not allow changes
/// nothing.
pub open spec fn next_state(s: StateView, step: Step) -> StateView {
    match (s, step) {
        (StateView::Idle, Step::Start(req)) => if preflight(req) is Ok {
            StateView::Starting
        } else {
            StateView::Idle
        },
        (StateView::Starting, Step::Dispatch(Err(_))) => StateView::Idle,
        (StateView::Starting, Step::Started { reply: Ok(job_id), .. }) => StateView::Formatting {
            job_id,
        },
        (StateView::Starting, Step::Started { reply: Err(_), .. }) => StateView::Idle,
        (StateView::Formatting { .. }, Step::Forward(item)) => if is_terminal(item) {
            StateView::Idle
        } else {
            s
        },
        (_, Step::Abandon(_)) => StateView::Idle,
        _ => s,
    }
}

/// The events that a step reports, in order. A step that the state does
/// not allow reports nothing.
pub open spec fn emitted(s: StateView, step: Step) -> Seq<ProgressEventView> {
    match (s, step) {
        (StateView::Starting, Step::Dispatch(Err(e))) => seq![ProgressEventView::Completed(Err(e))],
        (StateView::Starting, Step::Dispatch(Ok(false))) => seq![
            ProgressEventView::Message(creating_table_text()),
        ],
        (StateView::Starting, Step::Started { whole_disk, reply: Ok(job_id) }) => if whole_disk {
            seq![
                ProgressEventView::Message(formatting_partition_text()),
                ProgressEventView::JobStarted(job_id),
            ]
        } else {
            seq![ProgressEventView::JobStarted(job_id)]
        },
        (StateView::Starting, Step::Started { reply: Err(e), .. }) => seq![
            ProgressEventView::Completed(Err(e)),
        ],
        (StateView::Formatting { .. }, Step::Forward(item)) => seq![forwarded(item)],
        (StateView::Starting, Step::Abandon(reason)) => seq![
            ProgressEventView::Completed(Err(reason)),
        ],
        (StateView::Formatting { .. }, Step::Abandon(reason)) => seq![
            ProgressEventView::Completed(Err(reason)),
        ],
        _ => Seq::empty(),
    }
}

/// Why a step of a start is refused where no format is being started:
/// another job runs, or the format was given up in between.
pub open spec fn not_starting(s: StateView) -> StartErrorView {
    match s {
        StateView::Formatting { .. } => StartErrorView::Busy,
        _ => StartErrorView::Abandoned,
    }
}

/// The job after one item of its event stream: a percentage moves the
/// progress, and nothing else changes the job.
pub open spec fn job_after(job: JobView, item: Option<JobEventView>) -> JobView {
    match item {
        Some(JobEventView::Percent(p)) => JobView { progress: clamp_percent(p), ..job },
        _ => job,
    }
}

/// Where the orchestrator stands, with the job that it owns.
enum Phase {
    Idle,
    Starting,
    Formatting(Job),
}

/// The state machine of a format job. At most one job is started or runs
/// at any time, and the orchestrator alone owns it.
pub struct Orchestrator {
    phase: Phase,
}

impl View for Orchestrator {
    type V = StateView;

    closed spec fn view(&self) -> StateView {
        match self.phase {
            Phase::Idle => StateView::Idle,
            Phase::Starting => StateView::Starting,
            Phase::Formatting(job) => StateView::Formatting { job_id: job.id@ },
        }
    }
}

impl Orchestrator {
    #[verifier::type_invariant]
    spec fn progress_in_range(self) -> bool {
        self.phase matches Phase::Formatting(job) ==> job.progress <= 100
    }

    /// The job that the orchestrator owns, while it runs one.
    pub closed spec fn job_view(&self) -> Option<JobView> {
        match self.phase {
            Phase::Formatting(job) => Some(job@),
            _ => None,
        }
    }

    /// The orchestrator owns a job exactly while it is `Formatting`, and
    /// the job is the one that the state names.
    pub proof fn lemma_job_is_the_one_that_runs(&self)
        ensures
            match self@ {
                StateView::Formatting { job_id } => self.job_view() matches Some(job) && job.id
                    == job_id,
                _ => self.job_view() is None,
            },
    {
    }

    /// An orchestrator without a job.
    pub fn new() -> (r: Orchestrator)
        ensures
            r@ == StateView::Idle,
            r.job_view() is None,
    {
        Orchestrator { phase: Phase::Idle }
    }

    /// Where the job stands.
    pub fn state(&self) -> (r: OrchestratorState)
        ensures
            r@ == self@,
    {
        match &self.phase {
            Phase::Idle => OrchestratorState::Idle,
            Phase::Starting => OrchestratorState::Starting,
            Phase::Formatting(job) => OrchestratorState::Formatting { job_id: job.id.clone() },
        }
    }

    /// Whether a format is being started or runs.
    pub fn is_busy(&self) -> (r: bool)
        ensures
            r == !(self@ is Idle),
    {
        match self.phase {
            Phase::Idle => false,
            _ => true,
        }
    }

    /// The identifier of the job that runs, if one does.
    pub fn active_job_id(&self) -> (r: Option<String>)
        ensures
            match self@ {
                StateView::Formatting { job_id } => r matches Some(id) && id@ == job_id,
                _ => r is None,
            },
    {
        match &self.phase {
            Phase::Formatting(job) => Some(job.id.clone()),
            _ => None,
        }
    }

    /// A snapshot of the job that runs, if one does. Its progress lies
    /// between 0 and 100.
    pub fn job(&self) -> (r: Option<Job>)
        ensures
            match self.job_view() {
                Some(job) => r matches Some(snapshot) && snapshot@ == job && job.progress <= 100,
                None => r is None,
            },
    {
        proof {
            use_type_invariant(self);
        }
        match &self.phase {
            Phase::Formatting(job) => Some(job.clone()),
            _ => None,
        }
    }

    /// Takes a request to format `target_id`. A request is refused while
    /// another format is being started or runs, and where it breaks a rule;
    /// a refusal changes nothing and reports nothing. Otherwise the
    /// orchestrator is `Starting`, and the result is what `dispatch` needs.
    pub fn start(&mut self, target_id: &str, req: &FormatOptions) -> (r: Result<
        Preflight,
        StartError,
    >)
        ensures
            final(self)@ == next_state(old(self)@, Step::Start(req@)),
            !(old(self)@ is Idle) ==> (r matches Err(e) && e@ == StartErrorView::Busy),
            old(self)@ is Idle ==> match preflight(req@) {
                Ok(typed) => r matches Ok(p) && p.target@ == target_id@ && p.table
                    == req.partition_table && p.options@ == typed,
                Err(reason) => r matches Err(e) && e@ == StartErrorView::Invalid(reason),
            },
            final(self).job_view() == old(self).job_view(),
    {
        if self.is_busy() {
            return Err(StartError::Busy);
        }
        let built = match build_format_options(
            req.fs.clone(),
            req.label.clone(),
            req.quick,
            req.cluster_or_block_size,
            req.partition_table,
        ) {
            Ok(built) => built,
            Err(reason) => {
                return Err(StartError::Invalid(reason));
            },
        };
        let options = match to_ud_opts(&built) {
            Ok(options) => options,
            Err(reason) => {
                return Err(StartError::Invalid(reason));
            },
        };
        self.phase = Phase::Starting;
        Ok(Preflight { target: String::from_str(target_id), table: built.partition_table, options })
    }

    /// Decides what to ask of the disk service, once it has said whether
    /// the target is a partition. A partition is formatted as it is, and
    /// the table that the request names is left aside. A whole disk first
    /// gets a partition table, GPT where the request names none. Where the
    /// disk service could not say which it is, the format ends here. Where
    /// no format is being started, nothing changes and nothing is reported.
    pub fn dispatch(&mut self, pre: Preflight, is_partition: Result<bool, String>) -> (r: (
        Vec<ProgressEvent>,
        Result<FormatCall, StartError>,
    ))
        ensures
            final(self)@ == next_state(old(self)@, Step::Dispatch(answer_view(is_partition))),
            holds(r.0@, emitted(old(self)@, Step::Dispatch(answer_view(is_partition)))),
            !(old(self)@ is Starting) ==> (r.1 matches Err(e) && e@ == not_starting(old(self)@)),
            old(self)@ is Starting ==> match is_partition {
                Ok(true) => r.1 matches Ok(call) && call@ == (FormatCallView::Partition {
                    target: pre.target@,
                    options: pre.options@,
                }),
                Ok(false) => r.1 matches Ok(call) && call@ == (FormatCallView::WholeDisk {
                    target: pre.target@,
                    table: table_or_default(pre.table),
                    options: pre.options@,
                    wait_for_partition: true,
                }),
                Err(reason) => r.1 matches Err(e) && e@ == StartErrorView::Backend(reason@),
            },
            final(self).job_view() == old(self).job_view(),
    {
        let mut events: Vec<ProgressEvent> = Vec::new();
        match self.phase {
            Phase::Starting => {},
            Phase::Formatting(_) => {
                return (events, Err(StartError::Busy));
            },
            Phase::Idle => {
                return (events, Err(StartError::Abandoned));
            },
        }
        match is_partition {
            Ok(true) => {
                (events, Ok(FormatCall::Partition { target: pre.target, options: pre.options }))
            },
            Ok(false) => {
                let table = match pre.table {
                    Some(PartitionTable::Dos) => PartitionTable::Dos,
                    _ => PartitionTable::Gpt,
                };
                events.push(
                    ProgressEvent::Message(String::from_str("Creating partition table...")),
                );
                (
                    events,
                    Ok(
                        FormatCall::WholeDisk {
                            target: pre.target,
                            table,
                            options: pre.options,
                            wait_for_partition: true,
                        },
                    ),
                )
            },
            Err(reason) => {
                events.push(ProgressEvent::Completed(Err(reason.clone())));
                self.phase = Phase::Idle;
                (events, Err(StartError::Backend(reason)))
            },
        }
    }

    /// Takes the disk service's answer to the format call. Where it named
    /// a job, the job runs from now on: `JobStarted` is reported, after the
    /// notice that the new partition is being formatted where the call was
    /// for a whole disk, and the result names the partition that is being
    /// formatted. Where it refused, the refusal is reported as the end of
    /// the format. Where no format is being started, nothing changes and
    /// nothing is reported.
    pub fn job_started(&mut self, call: &FormatCall, reply: Result<Acknowledged, String>) -> (r: (
        Vec<ProgressEvent>,
        Result<JobHandle, StartError>,
    ))
        ensures
            final(self)@ == next_state(
                old(self)@,
                Step::Started { whole_disk: call@ is WholeDisk, reply: reply_view(reply) },
            ),
            holds(
                r.0@,
                emitted(
                    old(self)@,
                    Step::Started { whole_disk: call@ is WholeDisk, reply: reply_view(reply) },
                ),
            ),
            !(old(self)@ is Starting) ==> (r.1 matches Err(e) && e@ == not_starting(old(self)@)),
            old(self)@ is Starting ==> match reply {
                Ok(ack) => r.1 matches Ok(handle) && handle.id@ == ack.job_id@ && handle.target@
                    == formatted_target(call@, ack),
                Err(reason) => r.1 matches Err(e) && e@ == StartErrorView::Backend(reason@),
            },
            final(self).job_view() == if old(self)@ is Starting {
                match reply {
                    Ok(ack) => Some(
                        JobView {
                            id: ack.job_id@,
                            target: formatted_target(call@, ack),
                            progress: 0,
                        },
                    ),
                    Err(_) => None,
                }
            } else {
                old(self).job_view()
            },
    {
        let mut events: Vec<ProgressEvent> = Vec::new();
        match self.phase {
            Phase::Starting => {},
            Phase::Formatting(_) => {
                return (events, Err(StartError::Busy));
            },
            Phase::Idle => {
                return (events, Err(StartError::Abandoned));
            },
        }
        match reply {
            Ok(ack) => {
                let target = match call {
                    FormatCall::Partition { target, .. } => target.clone(),
                    FormatCall::WholeDisk { target, .. } => {
                        events.push(
                            ProgressEvent::Message(String::from_str("Formatting partition...")),
                        );
                        match ack.new_partition {
                            Some(partition) => partition,
                            None => target.clone(),
                        }
                    },
                };
                events.push(ProgressEvent::JobStarted(ack.job_id.clone()));
                self.phase = Phase::Formatting(
                    Job { id: ack.job_id.clone(), target: target.clone(), progress: 0 },
                );
                (events, Ok(JobHandle { id: ack.job_id, target }))
            },
            Err(reason) => {
                events.push(ProgressEvent::Completed(Err(reason.clone())));
                self.phase = Phase::Idle;
                (events, Err(StartError::Backend(reason)))
            },
        }
    }

    /// Takes one item of the running job's event stream, `None` for its
    /// end, and gives what is to be reported for it. A percentage is
    /// brought into the range from 0 to 100, and is the job's progress from
    /// then on; a rate and a completion are passed on as they are; a stream
    /// that ends before the job is reported as the failure of the job. The
    /// completion, or the end of the stream, ends the job. Without a
    /// running job the item is dropped.
    pub fn forward(&mut self, item: Option<JobEvent>) -> (r: Option<ProgressEvent>)
        ensures
            final(self)@ == next_state(old(self)@, Step::Forward(item_view(item))),
            match r {
                Some(ev) => seq![ev@] == emitted(old(self)@, Step::Forward(item_view(item))),
                None => emitted(old(self)@, Step::Forward(item_view(item))).len() == 0,
            },
            old(self)@ is Formatting ==> (r matches Some(ev) && ev@ == forwarded(item_view(item))),
            r matches Some(ProgressEvent::Percent(p)) ==> p <= 100,
            final(self).job_view() == match old(self).job_view() {
                Some(job) => if is_terminal(item_view(item)) {
                    None
                } else {
                    Some(job_after(job, item_view(item)))
                },
                None => None,
            },
    {
        let job = match &self.phase {
            Phase::Formatting(job) => job,
            _ => {
                return None;
            },
        };
        let ev = match item {
            Some(JobEvent::Percent(p)) => {
                let clamped: u8 = if p < 0 {
                    0
                } else if p > 100 {
                    100
                } else {
                    p as u8
                };
                let moved = Job { id: job.id.clone(), target: job.target.clone(), progress: clamped };
                self.phase = Phase::Formatting(moved);
                ProgressEvent::Percent(clamped)
            },
            Some(JobEvent::RateBytesPerSec(rate)) => ProgressEvent::RateBytesPerSec(rate),
            Some(JobEvent::Completed(outcome)) => {
                self.phase = Phase::Idle;
                ProgressEvent::Completed(outcome)
            },
            None => {
                self.phase = Phase::Idle;
                ProgressEvent::Completed(
                    Err(String::from_str("backend ended job without completion")),
                )
            },
        };
        Some(ev)
    }

    /// Gives up a format from outside, because the task that ran it failed
    /// or because nobody waits for it any more. A format that is being
    /// started or runs ends here, and its end is reported as a failure; an
    /// idle orchestrator has nothing to give up and reports nothing.
    pub fn abandon(&mut self, cause: Abandon) -> (r: Option<ProgressEvent>)
        ensures
            final(self)@ is Idle,
            final(self)@ == next_state(old(self)@, Step::Abandon(abandon_text(cause))),
            final(self).job_view() is None,
            match r {
                Some(ev) => seq![ev@] == emitted(old(self)@, Step::Abandon(abandon_text(cause))),
                None => emitted(old(self)@, Step::Abandon(abandon_text(cause))).len() == 0,
            },
            old(self)@ is Idle <==> r is None,
    {
        if !self.is_busy() {
            return None;
        }
        let reason = match cause {
            Abandon::Dropped => String::from_str("cancelled"),
            Abandon::Panicked(how) => {
                let mut text = String::from_str("internal error: ");
                text.append(how.as_str());
                text
            },
        };
        self.phase = Phase::Idle;
        let ev = ProgressEvent::Completed(Err(reason));
        Some(ev)
    }

    /// Decides what a request to cancel leads to: a call to the disk
    /// service where a job runs, and nothing at all where none does.
    /// Neither changes the state: a cancelled job ends when the disk
    /// service reports its completion.
    pub fn cancel(&self) -> (r: CancelStep)
        ensures
            match self@ {
                StateView::Formatting { job_id } => r matches CancelStep::Ask { job_id: id }
                    && id@ == job_id,
                _ => r is Done,
            },
    {
        match &self.phase {
            Phase::Formatting(job) => CancelStep::Ask { job_id: job.id.clone() },
            _ => CancelStep::Done,
        }
    }

    /// Takes the disk service's answer to a request to cancel. Where it
    /// took the request, nothing is reported: the job ends when the disk
    /// service reports its completion. Where it refused, a line with its
    /// reason is reported and, where the job still runs, `JobStarted` for
    /// that job once more, by which observers find their way back to what
    /// is the case. Either way the job goes on as before.
    pub fn cancel_finished(&self, reply: Result<(), String>) -> (r: (
        Vec<Msg>,
        Result<(), CancelError>,
    ))
        ensures
            match reply {
                Ok(_) => r.0@.len() == 0 && r.1 is Ok,
                Err(reason) => {
                    &&& r.1 matches Err(e) && e.0@ == reason@
                    &&& r.0@.len() >= 1
                    &&& r.0@[0] matches Msg::Status(line) && line@ == cancel_failed_text(reason@)
                    &&& match self@ {
                        StateView::Formatting { job_id } => r.0@.len() == 2 && (
                        r.0@[1] matches Msg::Progress(ev) && ev@ == ProgressEventView::JobStarted(
                            job_id,
                        )),
                        _ => r.0@.len() == 1,
                    }
                },
            },
    {
        let mut msgs: Vec<Msg> = Vec::new();
        match reply {
            Ok(_) => (msgs, Ok(())),
            Err(reason) => {
                let mut line = String::from_str("Cancel failed: ");
                line.append(reason.as_str());
                msgs.push(Msg::Status(line));
                match &self.phase {
                    Phase::Formatting(job) => {
                        msgs.push(Msg::Progress(ProgressEvent::JobStarted(job.id.clone())));
                    },
                    _ => {},
                }
                (msgs, Err(CancelError(reason)))
            },
        }
    }

    /// Takes the disk service's answer to a request for the devices that
    /// may be formatted, and passes it on. The job is not touched.
    pub fn list_devices(&self, reply: Result<Vec<BlockDevice>, String>) -> (r: Result<
        Vec<BlockDevice>,
        ListError,
    >)
        ensures
            match reply {
                Ok(devs) => r == Ok::<Vec<BlockDevice>, ListError>(devs),
                Err(reason) => r matches Err(e) && e.0@ == reason@,
            },
    {
        match reply {
            Ok(devs) => Ok(devs),
            Err(reason) => Err(ListError(reason)),
        }
    }
}

/// How a format ended for whoever asked for it.
#[derive(Debug, PartialEq, Eq)]
pub enum FormatEnd {
    /// The job ran to a good end; the text names the formatted partition.
    Formatted(String),
    /// No job was started.
    NotStarted(StartError),
    /// The job was started and failed; the text says why.
    Failed(String),
}

/// Says how a format ended, from how its start went and from the failure
/// that the end of its job reported, if it reported one.
pub fn format_end(started: Result<JobHandle, StartError>, failure: Option<String>) -> (r:
    FormatEnd)
    ensures
        r == match started {
            Ok(handle) => match failure {
                Some(reason) => FormatEnd::Failed(reason),
                None => FormatEnd::Formatted(handle.target),
            },
            Err(e) => FormatEnd::NotStarted(e),
        },
{
    match started {
        Ok(handle) => match failure {
            Some(reason) => FormatEnd::Failed(reason),
            None => FormatEnd::Formatted(handle.target),
        },
        Err(e) => FormatEnd::NotStarted(e),
    }
}

/// What the disk service answered, as plain values.
pub open spec fn answer_view(answer: Result<bool, String>) -> Result<bool, Seq<char>> {
    match answer {
        Ok(b) => Ok(b),
        Err(e) => Err(e@),
    }
}

/// The job that the disk service named, or its refusal, as plain values.
pub open spec fn reply_view(reply: Result<Acknowledged, String>) -> Result<Seq<char>, Seq<char>> {
    match reply {
        Ok(ack) => Ok(ack.job_id@),
        Err(e) => Err(e@),
    }
}

/// One item of an event stream, as plain values.
pub open spec fn item_view(item: Option<JobEvent>) -> Option<JobEventView> {
    match item {
        Some(ev) => Some(ev@),
        None => None,
    }
}

/// The partition that is formatted: the one that the disk service made
/// where the call was for a whole disk, and the target of the call
/// otherwise.
pub open spec fn formatted_target(call: FormatCallView, ack: Acknowledged) -> Seq<char> {
    match (call, ack.new_partition) {
        (FormatCallView::WholeDisk { .. }, Some(partition)) => partition@,
        _ => call.target(),
    }
}

} // verus!
