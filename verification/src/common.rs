//! The event bus and what travels on it, the choice between the disk
//! service and its stand-in, and the lines that a console shows.

use vstd::prelude::*;

use crate::backends::mock::{mock_warning_text, MockBackend, MOCK_FORMAT_OPERATION_MS};
use crate::backends::{BlockDevice, FormatOptions, ProgressEvent, ProgressEventView};
use crate::text::{decimal, decimal_text, holds};
use crate::utils::opt_str_text;

verus! {

/// A message on the event bus.
#[derive(Debug, PartialEq)]
pub enum Msg {
    /// The devices that may be formatted.
    Devices(Vec<BlockDevice>),
    /// A request to format the device `obj_path`.
    Start { obj_path: String, opts: FormatOptions },
    /// A request to cancel the running job.
    Cancel,
    /// A request to close the application.
    RequestClose,
    /// News of a format job.
    Progress(ProgressEvent),
    /// A line for the user.
    Status(String),
}

impl Clone for Msg {
    fn clone(&self) -> (r: Msg)
        ensures
            match *self {
                Msg::Devices(devs) => r matches Msg::Devices(copy) && copy@ == devs@,
                _ => r == *self,
            },
    {
        match self {
            Msg::Devices(devs) => {
                let mut copy: Vec<BlockDevice> = Vec::new();
                let mut i: usize = 0;
                while i < devs.len()
                    invariant
                        i <= devs.len(),
                        copy@ == devs@.take(i as int),
                    decreases devs.len() - i,
                {
                    copy.push(devs[i].clone());
                    i += 1;
                }
                Msg::Devices(copy)
            },
            Msg::Start { obj_path, opts } => Msg::Start {
                obj_path: obj_path.clone(),
                opts: opts.clone(),
            },
            Msg::Cancel => Msg::Cancel,
            Msg::RequestClose => Msg::RequestClose,
            Msg::Progress(ev) => Msg::Progress(ev.clone()),
            Msg::Status(s) => Msg::Status(s.clone()),
        }
    }
}

impl Msg {
    /// Whether the message reports the end of a job. Such a message is
    /// never dropped.
    pub open spec fn is_completion(self) -> bool {
        self matches Msg::Progress(ProgressEvent::Completed(_))
    }

    /// Whether the message reports the end of a job.
    pub fn reports_completion(&self) -> (r: bool)
        ensures
            r == self.is_completion(),
    {
        match self {
            Msg::Progress(ProgressEvent::Completed(_)) => true,
            _ => false,
        }
    }
}

/// The sending half of the event bus: `crossbeam_channel::Sender`. A value
/// of it is carried through to the calls below, and nothing is known of
/// what is on the channel.
#[verifier::external_type_specification]
#[verifier::external_body]
#[verifier::reject_recursive_types(T)]
pub struct ExSender<T>(crossbeam_channel::Sender<T>);

/// What the bus answered to a message that was offered without waiting.
#[derive(Debug, PartialEq)]
pub enum Offer {
    /// The message is on the bus.
    Accepted,
    /// The bus is full; the message comes back.
    Full(Msg),
    /// Nobody listens any more; the message comes back.
    Disconnected(Msg),
}

/// What became of a message that was handed to `emit`.
#[derive(Debug, PartialEq)]
pub enum Delivery {
    /// The message is on the bus.
    Sent,
    /// The bus was full, and the message is gone.
    Dropped,
    /// The bus was full, and the message is handed back to be sent later.
    Held(Msg),
    /// Nobody listens any more, and the message is gone.
    Closed,
}

/// Offers `msg` to the bus without waiting: `crossbeam_channel`'s
/// `Sender::try_send`. Whether the bus takes the message depends on what
/// is on it at that moment, so nothing is said of that. What is said: a
/// message that the bus does not take comes back as it was.
#[verifier::external_body]
fn offer(tx: &crossbeam_channel::Sender<Msg>, msg: Msg) -> (r: Offer)
    ensures
        r matches Offer::Full(m) ==> m == msg,
        r matches Offer::Disconnected(m) ==> m == msg,
{
    match tx.try_send(msg) {
        Ok(()) => Offer::Accepted,
        Err(crossbeam_channel::TrySendError::Full(m)) => Offer::Full(m),
        Err(crossbeam_channel::TrySendError::Disconnected(m)) => Offer::Disconnected(m),
    }
}

/// Sends `msg` on the bus and waits for room where the bus is full:
/// `crossbeam_channel`'s `Sender::send`. It fails only where nobody listens
/// any more, and the message then comes back as it was.
#[verifier::external_body]
fn send_waiting(tx: &crossbeam_channel::Sender<Msg>, msg: Msg) -> (r: Result<(), Msg>)
    ensures
        r matches Err(m) ==> m == msg,
{
    match tx.send(msg) {
        Ok(()) => Ok(()),
        Err(crossbeam_channel::SendError(m)) => Err(m),
    }
}

/// What becomes of a message after the bus's answer: a message that a full
/// bus did not take is dropped, unless it reports the end of a job, which
/// is held for another attempt.
pub open spec fn settled(answer: Offer) -> Delivery {
    match answer {
        Offer::Accepted => Delivery::Sent,
        Offer::Full(m) => if m.is_completion() {
            Delivery::Held(m)
        } else {
            Delivery::Dropped
        },
        Offer::Disconnected(_) => Delivery::Closed,
    }
}

/// Decides what becomes of a message after the bus's answer.
pub fn settle(answer: Offer) -> (r: Delivery)
    ensures
        r == settled(answer),
{
    match answer {
        Offer::Accepted => Delivery::Sent,
        Offer::Full(m) => {
            if m.reports_completion() {
                Delivery::Held(m)
            } else {
                Delivery::Dropped
            }
        },
        Offer::Disconnected(_) => Delivery::Closed,
    }
}

/// Puts `msg` on the bus if the bus has room, and never waits. Whatever
/// the bus answers, a message that reports the end of a job is not
/// dropped, and the message that is handed back is the one that was given.
pub fn emit(tx: &crossbeam_channel::Sender<Msg>, msg: Msg) -> (r: Delivery)
    ensures
        r is Dropped ==> !msg.is_completion(),
        r matches Delivery::Held(m) ==> m == msg && msg.is_completion(),
{
    settle(offer(tx, msg))
}

/// Puts `msg` on the bus, and waits for room only for a message that
/// reports the end of a job: such a message is neither dropped nor handed
/// back.
pub fn deliver(tx: &crossbeam_channel::Sender<Msg>, msg: Msg) -> (r: Delivery)
    ensures
        !(r is Held),
        r is Dropped ==> !msg.is_completion(),
{
    match emit(tx, msg) {
        Delivery::Held(m) => match send_waiting(tx, m) {
            Ok(()) => Delivery::Sent,
            Err(_) => Delivery::Closed,
        },
        other => other,
    }
}

/// What became of a message that was handed to an `Outbox`.
#[derive(Clone, Copy, Debug, PartialEq, Eq, Structural)]
pub enum Posted {
    /// The message is on the bus, behind everything that waited before it.
    Sent,
    /// The bus was full, and the message is gone.
    Dropped,
    /// The bus was full, and the message waits in the outbox.
    Waiting,
    /// Nobody listens any more; the message and all that waited are gone.
    Closed,
}

/// What becomes of what waits after the bus's answer to the oldest
/// message that waits: taken, the message leaves the queue; on a full bus
/// all stays as it is; where nobody listens any more, all that waits is
/// given up. Nothing happens where nothing waits.
pub open spec fn waiting_after(waiting: Seq<Msg>, answer: Offer) -> Seq<Msg> {
    if waiting.len() == 0 {
        waiting
    } else {
        match answer {
            Offer::Accepted => waiting.skip(1),
            Offer::Full(_) => waiting,
            Offer::Disconnected(_) => Seq::empty(),
        }
    }
}

/// Whether the next message that waits is to be offered after that answer:
/// only after a message was taken.
pub open spec fn goes_on(waiting: Seq<Msg>, answer: Offer) -> bool {
    waiting.len() > 0 && answer is Accepted
}

/// What becomes of a message, and of what waits, once the bus's answer to
/// the message is settled: a message that is held joins the queue at its
/// end if it reports the end of a job, and is dropped if it does not;
/// where nobody listens any more, all that waits is given up.
pub open spec fn queue_after(waiting: Seq<Msg>, fate: Delivery) -> (Seq<Msg>, Posted) {
    match fate {
        Delivery::Sent => (waiting, Posted::Sent),
        Delivery::Dropped => (waiting, Posted::Dropped),
        Delivery::Held(m) => if m.is_completion() {
            (waiting.push(m), Posted::Waiting)
        } else {
            (waiting, Posted::Dropped)
        },
        Delivery::Closed => (Seq::empty(), Posted::Closed),
    }
}

/// The answer of the bus that a send with waiting comes to: taken, or
/// nobody listens any more.
pub open spec fn as_answer(sent: Result<(), Msg>) -> Offer {
    match sent {
        Ok(_) => Offer::Accepted,
        Err(m) => Offer::Disconnected(m),
    }
}

/// Reads the outcome of a send with waiting as an answer of the bus.
pub fn answer_of(sent: Result<(), Msg>) -> (r: Offer)
    ensures
        r == as_answer(sent),
{
    match sent {
        Ok(_) => Offer::Accepted,
        Err(back) => Offer::Disconnected(back),
    }
}

/// A producer's end of the event bus. It never waits for room on the bus:
/// what the bus has no room for is dropped, but for the reports of the end
/// of a job, which wait here and go out before anything that comes later.
pub struct Outbox {
    held: Vec<Msg>,
}

impl Outbox {
    #[verifier::type_invariant]
    spec fn holds_completions(self) -> bool {
        forall|i: int| 0 <= i < self.held@.len() ==> (#[trigger] self.held@[i]).is_completion()
    }

    /// The messages that wait for room on the bus, oldest first.
    pub closed spec fn waiting(&self) -> Seq<Msg> {
        self.held@
    }

    /// An outbox in which nothing waits.
    pub fn new() -> (r: Outbox)
        ensures
            r.waiting().len() == 0,
    {
        Outbox { held: Vec::new() }
    }

    /// How many messages wait for room on the bus. Only reports of the end
    /// of a job ever wait.
    pub fn pending(&self) -> (n: usize)
        ensures
            n == self.waiting().len(),
            forall|i: int|
                0 <= i < self.waiting().len() ==> (#[trigger] self.waiting()[i]).is_completion(),
    {
        proof {
            use_type_invariant(self);
        }
        self.held.len()
    }

    /// A copy of the oldest message that waits, to be offered to the bus.
    pub fn oldest(&self) -> (r: Option<Msg>)
        ensures
            r == if self.waiting().len() > 0 {
                Some(self.waiting()[0])
            } else {
                None
            },
    {
        proof {
            use_type_invariant(self);
        }
        if self.held.len() > 0 {
            Some(self.held[0].clone())
        } else {
            None
        }
    }

    /// Takes the bus's answer to the oldest message that waits, and says
    /// whether the next one is to be offered.
    pub fn took(&mut self, answer: Offer) -> (go_on: bool)
        ensures
            final(self).waiting() == waiting_after(old(self).waiting(), answer),
            go_on == goes_on(old(self).waiting(), answer),
    {
        proof {
            use_type_invariant(&*self);
        }
        if self.held.len() == 0 {
            return false;
        }
        let mut held: Vec<Msg> = Vec::new();
        core::mem::swap(&mut self.held, &mut held);
        let go_on = match answer {
            Offer::Accepted => {
                let _ = held.remove(0);
                assert(held@ =~= old(self).held@.skip(1));
                true
            },
            Offer::Full(_) => false,
            Offer::Disconnected(_) => {
                held.clear();
                false
            },
        };
        self.held = held;
        go_on
    }

    /// Takes what was settled of a message after the bus's answer to it,
    /// and says what became of the message.
    pub fn put(&mut self, fate: Delivery) -> (r: Posted)
        ensures
            (final(self).waiting(), r) == queue_after(old(self).waiting(), fate),
    {
        proof {
            use_type_invariant(&*self);
        }
        let mut held: Vec<Msg> = Vec::new();
        core::mem::swap(&mut self.held, &mut held);
        let r = match fate {
            Delivery::Sent => Posted::Sent,
            Delivery::Dropped => Posted::Dropped,
            Delivery::Held(m) => {
                if m.reports_completion() {
                    held.push(m);
                    Posted::Waiting
                } else {
                    Posted::Dropped
                }
            },
            Delivery::Closed => {
                held.clear();
                Posted::Closed
            },
        };
        self.held = held;
        r
    }

    /// Offers to the bus what waits, oldest first, and then `msg`, and
    /// never waits for room. What becomes of the queue after each answer
    /// of the bus is what `took` says, and what becomes of `msg` is what
    /// `settle` and `put` say; a message that comes while others still
    /// wait is held or dropped as on a full bus. Whatever the bus answers:
    /// nothing overtakes a message that waits; what waits afterwards is
    /// the end of what waited before, with `msg` behind it where `msg`
    /// waits too; and only a message that reports no end of a job is
    /// dropped for want of room.
    pub fn emit(&mut self, tx: &crossbeam_channel::Sender<Msg>, msg: Msg) -> (r: Posted)
        ensures
            r is Dropped ==> !msg.is_completion(),
            r is Waiting ==> msg.is_completion(),
            r is Sent || r is Closed ==> final(self).waiting().len() == 0,
            final(self).waiting().is_suffix_of(
                old(self).waiting() + if r is Waiting {
                    seq![msg]
                } else {
                    Seq::empty()
                },
            ),
            r is Waiting ==> final(self).waiting().len() > 0 && final(self).waiting().last() == msg,
    {
        let ghost before = self.waiting();
        let ghost mut gone: int = 0;
        let mut go_on = true;
        while go_on
            invariant
                0 <= gone <= before.len(),
                self.waiting().is_suffix_of(before),
                go_on ==> self.waiting() == before.skip(gone),
            decreases self.waiting().len(), if go_on { 1int } else { 0int },
        {
            go_on = match self.oldest() {
                Some(oldest) => {
                    let answer = offer(tx, oldest);
                    proof {
                        if answer is Accepted {
                            assert(before.skip(gone).skip(1) =~= before.skip(gone + 1));
                            gone = gone + 1;
                        }
                    }
                    self.took(answer)
                },
                None => false,
            };
        }
        let fate = if self.pending() == 0 {
            settle(offer(tx, msg))
        } else {
            settle(Offer::Full(msg))
        };
        let r = self.put(fate);
        proof {
            let all = before + if r is Waiting {
                seq![msg]
            } else {
                Seq::empty()
            };
            assert(self.waiting() =~= all.subrange(
                all.len() - self.waiting().len(),
                all.len() as int,
            ));
        }
        r
    }

    /// Sends what waits, oldest first, and waits for room on the bus for
    /// each message: the last resort by which the end of a job reaches
    /// whoever listens. Where nothing waits, nothing is sent and all is
    /// well. Otherwise every message goes out unless nobody listens any
    /// more, which ends the sending: what becomes of the queue after each
    /// send is what `took` says. Nothing waits afterwards.
    pub fn flush(&mut self, tx: &crossbeam_channel::Sender<Msg>) -> (r: Posted)
        ensures
            final(self).waiting().len() == 0,
            r is Sent || r is Closed,
            old(self).waiting().len() == 0 ==> r is Sent,
    {
        let mut r = Posted::Sent;
        let mut go_on = true;
        while go_on
            invariant
                r is Sent || r is Closed,
                !go_on ==> self.waiting().len() == 0,
                old(self).waiting().len() == 0 ==> self.waiting().len() == 0 && r is Sent,
            decreases self.waiting().len(), if go_on { 1int } else { 0int },
        {
            go_on = match self.oldest() {
                Some(oldest) => {
                    let answer = answer_of(send_waiting(tx, oldest));
                    if !self.took(answer) {
                        r = Posted::Closed;
                    }
                    true
                },
                None => false,
            };
        }
        r
    }
}

/// Which disk service is used.
#[derive(Clone, Copy, Debug, PartialEq, Eq, Structural)]
pub enum BackendKind {
    /// The system's disk service.
    Udisks,
    /// The stand-in that formats nothing.
    Mock,
}

/// The first line of the warning that the disk service is out of reach.
pub open spec fn connect_failed_text(reason: Seq<char>) -> Seq<char> {
    "Warning: Failed to connect to UDisks2: "@ + reason
}

/// The second line of that warning.
pub open spec fn fallback_text() -> Seq<char> {
    "Falling back to mock backend (no actual disk operations will be performed)"@
}

/// The disk service to use: the stand-in where it was asked for, and where
/// the system's disk service is out of reach.
pub open spec fn backend_for(use_mock: bool, connect_error: Option<Seq<char>>) -> BackendKind {
    if use_mock || connect_error is Some {
        BackendKind::Mock
    } else {
        BackendKind::Udisks
    }
}

/// The warning that goes with that choice: two lines where the system's
/// disk service was wanted and is out of reach, and nothing otherwise.
pub open spec fn backend_warnings(use_mock: bool, connect_error: Option<Seq<char>>) -> Seq<
    Seq<char>,
> {
    match connect_error {
        Some(reason) => if use_mock {
            Seq::empty()
        } else {
            seq![connect_failed_text(reason), fallback_text()]
        },
        None => Seq::empty(),
    }
}

/// The disk service that was chosen, and what is to be said of the choice.
#[derive(Debug)]
pub struct BackendChoice {
    /// Which disk service is used.
    pub kind: BackendKind,
    /// The stand-in, where it is the one that is used.
    pub stand_in: Option<MockBackend>,
    /// The lines for the console, in order.
    pub warnings: Vec<String>,
    /// The messages for the event bus, in order.
    pub bus: Vec<Msg>,
}

/// Chooses the disk service. `connect_error` says why the system's disk
/// service could not be reached, where it could not; it is left aside
/// where the stand-in was asked for. The program never refuses to run for
/// want of a disk service: where the system's one is out of reach, the
/// stand-in is made. Whenever the stand-in is used, exactly one warning
/// goes on the event bus.
pub fn make_backend(use_mock: bool, connect_error: Option<&str>) -> (r: BackendChoice)
    ensures
        r.kind == backend_for(use_mock, opt_str_text(connect_error)),
        holds(r.warnings@, backend_warnings(use_mock, opt_str_text(connect_error))),
        match r.kind {
            BackendKind::Mock => {
                &&& r.stand_in matches Some(mock) && mock.step_delay() == MOCK_FORMAT_OPERATION_MS
                &&& r.bus@.len() == 1
                &&& r.bus@[0] matches Msg::Status(line) && line@ == mock_warning_text()
            },
            BackendKind::Udisks => r.stand_in is None && r.bus@.len() == 0,
        },
{
    let mut warnings: Vec<String> = Vec::new();
    let mut bus: Vec<Msg> = Vec::new();
    if !use_mock {
        match connect_error {
            Some(reason) => {
                let mut first = String::from_str("Warning: Failed to connect to UDisks2: ");
                first.append(reason);
                warnings.push(first);
                warnings.push(
                    String::from_str(
                        "Falling back to mock backend (no actual disk operations will be performed)",
                    ),
                );
            },
            None => {
                return BackendChoice { kind: BackendKind::Udisks, stand_in: None, warnings, bus };
            },
        }
    }
    let (mock, warning) = MockBackend::new();
    bus.push(warning);
    BackendChoice { kind: BackendKind::Mock, stand_in: Some(mock), warnings, bus }
}

/// The line that a console shows for an event.
pub open spec fn progress_line(ev: ProgressEventView) -> Seq<char> {
    match ev {
        ProgressEventView::JobStarted(id) => "Job "@ + id + " started"@,
        ProgressEventView::Percent(p) => "Progress: "@ + decimal(p as nat) + "%"@,
        ProgressEventView::RateBytesPerSec(r) => "Rate: "@ + decimal(r as nat) + " B/s"@,
        ProgressEventView::Message(m) => m,
        ProgressEventView::Completed(Ok(_)) => "Completed"@,
        ProgressEventView::Completed(Err(e)) => "Error: "@ + e,
    }
}

/// Reports a format job line by line.
pub struct ConsoleReporter;

impl ConsoleReporter {
    /// The line for a status message: the message itself.
    pub fn status(&mut self, msg: &str) -> (line: String)
        ensures
            line@ == msg@,
    {
        String::from_str(msg)
    }

    /// The line for an event.
    pub fn progress(&mut self, ev: &ProgressEvent) -> (line: String)
        ensures
            line@ == progress_line(ev@),
    {
        match ev {
            ProgressEvent::JobStarted(id) => {
                let mut line = String::from_str("Job ");
                line.append(id.as_str());
                line.append(" started");
                line
            },
            ProgressEvent::Percent(p) => {
                let n: u64 = *p as u64;
                let mut line = String::from_str("Progress: ");
                line.append(decimal_text(n).as_str());
                line.append("%");
                line
            },
            ProgressEvent::RateBytesPerSec(r) => {
                let mut line = String::from_str("Rate: ");
                line.append(decimal_text(*r).as_str());
                line.append(" B/s");
                line
            },
            ProgressEvent::Message(m) => m.clone(),
            ProgressEvent::Completed(Ok(_)) => String::from_str("Completed"),
            ProgressEvent::Completed(Err(e)) => {
                let mut line = String::from_str("Error: ");
                line.append(e.as_str());
                line
            },
        }
    }

    /// Shows a message from the bus: the line for it, if it has one, and
    /// whether it reports the end of the job, after which nothing more is
    /// awaited.
    pub fn handle(&mut self, msg: &Msg) -> (r: (Option<String>, bool))
        ensures
            r.1 == msg.is_completion(),
            match *msg {
                Msg::Status(s) => r.0 matches Some(line) && line@ == s@,
                Msg::Progress(ev) => r.0 matches Some(line) && line@ == progress_line(ev@),
                _ => r.0 is None,
            },
    {
        match msg {
            Msg::Status(s) => (Some(self.status(s.as_str())), false),
            Msg::Progress(ev) => (Some(self.progress(ev)), msg.reports_completion()),
            _ => (None, false),
        }
    }
}

} // verus!
