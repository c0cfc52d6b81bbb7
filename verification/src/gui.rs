//! What the graphical interface knows and decides: the choices that it
//! offers, the state that it shows, and what each message from the event
//! bus leads to. The widgets themselves are drawn elsewhere.

use vstd::prelude::*;

use crate::backends::{
    fs_kind, BlockDevice, FilesystemKind, FormatOptions, PartitionTable, ProgressEvent,
    ProgressEventView,
};
use crate::common::Msg;
use crate::orchestrator::{FormatEnd, ListError, OrchestratorState, StartErrorView, StateView};
use crate::text::{
    decimal, decimal_text, holds, is_digit, is_space, lemma_decimal_digits,
    lemma_first_token_of_prefixed, lemma_parse_decimal, starts_with,
};
use crate::utils::{build_format_options, opt_str_text, request_error, size_choice_value};

verus! {

/// What is said of an operation that failed.
pub open spec fn failure_text(operation: Seq<char>, error: Seq<char>) -> Seq<char> {
    operation + " failed: "@ + error
}

/// Reports the failure of an operation: a line for the user, then the end
/// of the job, with the same reason.
pub fn report_error(operation: &str, error: &str) -> (r: (Msg, Msg))
    ensures
        r.0 matches Msg::Status(line) && line@ == failure_text(operation@, error@),
        r.1 matches Msg::Progress(ev) && ev@ == ProgressEventView::Completed(Err(error@)),
{
    let mut line = String::from_str(operation);
    line.append(" failed: ");
    line.append(error);
    (Msg::Status(line), Msg::Progress(ProgressEvent::Completed(Err(String::from_str(error)))))
}

/// The filesystem for which sizes are offered: the chosen one, or `vfat`.
pub open spec fn fs_or_vfat(fs: Option<Seq<char>>) -> Seq<char> {
    match fs {
        Some(name) => name,
        None => "vfat"@,
    }
}

/// The allocation units that are offered for a filesystem.
pub open spec fn offered_units(kind: Option<FilesystemKind>) -> Seq<u64> {
    match kind {
        Some(FilesystemKind::Vfat) => seq![1u64, 2, 4, 8, 16, 32, 64, 128],
        Some(FilesystemKind::Exfat) | Some(FilesystemKind::Ntfs) => seq![
            4096u64,
            8192,
            16384,
            32768,
            65536,
            131072,
            262144,
            524288,
            1048576,
        ],
        Some(FilesystemKind::Ext4) | Some(FilesystemKind::Xfs) => seq![1024u64, 2048, 4096],
        Some(FilesystemKind::Btrfs) => seq![4096u64, 16384, 32768, 65536],
        None => Seq::empty(),
    }
}

/// The word after the number of a size choice: FAT counts sectors, the
/// others bytes.
pub open spec fn unit_word(kind: Option<FilesystemKind>, n: u64) -> Seq<char> {
    if kind == Some(FilesystemKind::Vfat) {
        if n == 1 {
            "sector"@
        } else {
            "sectors"@
        }
    } else {
        "bytes"@
    }
}

/// A size choice: the number, a space, and the unit.
pub open spec fn size_choice_text(n: u64, word: Seq<char>) -> Seq<char> {
    decimal(n as nat) + seq![' '] + word
}

/// The size choices for a filesystem: `Auto`, then one for each allocation
/// unit that is offered.
pub open spec fn size_choices(fs: Option<Seq<char>>) -> Seq<Seq<char>> {
    let kind = fs_kind(fs_or_vfat(fs));
    seq!["Auto"@] + offered_units(kind).map_values(
        |n: u64| size_choice_text(n, unit_word(kind, n)),
    )
}

fn units_for(kind: Option<FilesystemKind>) -> (r: Vec<u64>)
    ensures
        r@ == offered_units(kind),
{
    let mut r: Vec<u64> = Vec::new();
    match kind {
        Some(FilesystemKind::Vfat) => {
            r.push(1);
            r.push(2);
            r.push(4);
            r.push(8);
            r.push(16);
            r.push(32);
            r.push(64);
            r.push(128);
        },
        Some(FilesystemKind::Exfat) | Some(FilesystemKind::Ntfs) => {
            r.push(4096);
            r.push(8192);
            r.push(16384);
            r.push(32768);
            r.push(65536);
            r.push(131072);
            r.push(262144);
            r.push(524288);
            r.push(1048576);
        },
        Some(FilesystemKind::Ext4) | Some(FilesystemKind::Xfs) => {
            r.push(1024);
            r.push(2048);
            r.push(4096);
        },
        Some(FilesystemKind::Btrfs) => {
            r.push(4096);
            r.push(16384);
            r.push(32768);
            r.push(65536);
        },
        None => {},
    }
    r
}

/// The size choices with which the list of sizes is filled when the
/// filesystem `fs` is chosen. The first one, `Auto`, is the one to select.
pub fn fill_size_choices(fs: Option<&str>) -> (r: Vec<String>)
    ensures
        holds(r@, size_choices(opt_str_text(fs))),
{
    let name = match fs {
        Some(name) => name,
        None => "vfat",
    };
    let kind = FilesystemKind::parse(name);
    let units = units_for(kind);
    let mut r: Vec<String> = Vec::new();
    r.push(String::from_str("Auto"));
    let is_vfat = match kind {
        Some(FilesystemKind::Vfat) => true,
        _ => false,
    };
    let mut i: usize = 0;
    while i < units.len()
        invariant
            i <= units.len(),
            units@ == offered_units(kind),
            is_vfat == (kind == Some(FilesystemKind::Vfat)),
            r@.len() == i + 1,
            r@[0]@ == "Auto"@,
            forall|j: int|
                0 <= j < i ==> (#[trigger] r@[j + 1])@ == size_choice_text(
                    units@[j],
                    unit_word(kind, units@[j]),
                ),
        decreases units.len() - i,
    {
        let n: u64 = units[i];
        let word = if is_vfat {
            if n == 1 {
                "sector"
            } else {
                "sectors"
            }
        } else {
            "bytes"
        };
        let mut text = decimal_text(n);
        text.append(" ");
        text.append(word);
        proof {
            reveal_strlit(" ");
        }
        r.push(text);
        i += 1;
    }
    proof {
        let expected = size_choices(opt_str_text(fs));
        assert forall|k: int| 0 <= k < expected.len() implies (#[trigger] r@[k])@
            == expected[k] by {
            if k > 0 {
                let j = k - 1;
                assert(r@[j + 1]@ == size_choice_text(units@[j], unit_word(kind, units@[j])));
            }
        }
    }
    r
}

/// A size choice is read back as the number that it was written from,
/// whatever unit is named after the number.
pub proof fn lemma_size_choice_round_trip(n: u64, word: Seq<char>)
    ensures
        size_choice_value(Some(size_choice_text(n, word))) == Some(n),
{
    let digits = decimal(n as nat);
    lemma_decimal_digits(n as nat);
    lemma_parse_decimal(n);
    assert forall|i: int| 0 <= i < digits.len() implies !is_space(#[trigger] digits[i]) by {
        assert(is_digit(digits[i]));
    }
    lemma_first_token_of_prefixed(digits, word);
    // A choice begins with a digit, and `Auto` does not.
    reveal_strlit("Auto");
    assert(size_choice_text(n, word)[0] == digits[0]);
}

/// Every size that is offered is read back as the allocation unit that it
/// stands for; `Auto`, the first choice, leaves the unit open.
pub proof fn lemma_offered_sizes_are_read(fs: Option<Seq<char>>, i: int)
    requires
        0 <= i < size_choices(fs).len(),
    ensures
        size_choice_value(Some(size_choices(fs)[i])) == if i == 0 {
            None
        } else {
            Some(offered_units(fs_kind(fs_or_vfat(fs)))[i - 1])
        },
{
    let kind = fs_kind(fs_or_vfat(fs));
    if i > 0 {
        let n = offered_units(kind)[i - 1];
        lemma_size_choice_round_trip(n, unit_word(kind, n));
    }
}

/// The caption of the list of sizes: what an allocation unit is called
/// under the chosen filesystem.
pub open spec fn size_label(fs: Option<Seq<char>>) -> Seq<char> {
    match fs_kind(fs_or_vfat(fs)) {
        Some(FilesystemKind::Vfat) => "Sectors per cluster"@,
        Some(FilesystemKind::Exfat) | Some(FilesystemKind::Ntfs) => "Cluster size (bytes)"@,
        Some(FilesystemKind::Ext4) | Some(FilesystemKind::Xfs) => "Block size (bytes)"@,
        Some(FilesystemKind::Btrfs) => "Nodesize (bytes)"@,
        None => "Allocation Unit Size"@,
    }
}

/// The caption of the list of sizes when the filesystem `fs` is chosen.
pub fn size_label_text(fs: Option<&str>) -> (r: &'static str)
    ensures
        r@ == size_label(opt_str_text(fs)),
{
    let name = match fs {
        Some(name) => name,
        None => "vfat",
    };
    match FilesystemKind::parse(name) {
        Some(FilesystemKind::Vfat) => "Sectors per cluster",
        Some(FilesystemKind::Exfat) | Some(FilesystemKind::Ntfs) => "Cluster size (bytes)",
        Some(FilesystemKind::Ext4) | Some(FilesystemKind::Xfs) => "Block size (bytes)",
        Some(FilesystemKind::Btrfs) => "Nodesize (bytes)",
        None => "Allocation Unit Size",
    }
}

/// The partition table that a choice in the list of tables stands for:
/// DOS for a choice that begins with `MBR`, GPT for every other one and
/// for none.
pub fn parse_partition_table_choice(choice: Option<&str>) -> (r: Option<PartitionTable>)
    ensures
        r == Some(
            if choice matches Some(s) && "MBR"@.is_prefix_of(s@) {
                PartitionTable::Dos
            } else {
                PartitionTable::Gpt
            },
        ),
{
    match choice {
        Some(s) => {
            if starts_with(s, "MBR") {
                Some(PartitionTable::Dos)
            } else {
                Some(PartitionTable::Gpt)
            }
        },
        None => Some(PartitionTable::Gpt),
    }
}

/// What the interface shows of a format: where the job stands, how far it
/// is, and the last line of news.
pub struct Ui {
    state: OrchestratorState,
    progress: u8,
    status: String,
}

/// What a `Ui` holds, as plain values.
pub struct UiView {
    pub state: StateView,
    pub progress: u8,
    pub status: Seq<char>,
}

impl View for Ui {
    type V = UiView;

    closed spec fn view(&self) -> UiView {
        UiView { state: self.state@, progress: self.progress, status: self.status@ }
    }
}

/// What the interface does about a message, beyond what it shows.
#[derive(Debug, PartialEq)]
#[allow(inconsistent_fields)]
pub enum UiAction {
    /// Offer these devices.
    ShowDevices(Vec<BlockDevice>),
    /// Tell the user in a dialog.
    Dialog(String),
    /// Ask the disk service to format.
    Format { obj_path: String, opts: FormatOptions },
    /// Ask the disk service to cancel the job.
    CancelJob { job_id: String },
    /// Close the application.
    Quit,
}

/// The largest value of the progress bar.
pub const PROGRESS_MAX: u8 = 100;

/// What is said while a format is being started.
pub open spec fn starting_text() -> Seq<char> {
    "Starting..."@
}

/// What is said to a user who closes the window during a format.
pub open spec fn still_running_text() -> Seq<char> {
    "A format is still running. Cancel it before closing."@
}

impl UiView {
    /// Whether a format is being started or runs.
    pub open spec fn is_busy(self) -> bool {
        !(self.state is Idle)
    }

    /// What is shown after an event. A job that starts is running, and a
    /// job that ends leaves the interface idle, the bar full after a good
    /// end and empty after a bad one. A percentage moves the bar, within
    /// its range; everything else changes the line of news.
    pub open spec fn after_event(self, ev: ProgressEventView) -> UiView {
        match ev {
            ProgressEventView::JobStarted(_) => UiView { state: self.state.after(ev), ..self },
            ProgressEventView::Percent(p) => UiView {
                progress: if p > PROGRESS_MAX {
                    PROGRESS_MAX
                } else {
                    p
                },
                ..self
            },
            ProgressEventView::Message(m) => UiView { status: m, ..self },
            ProgressEventView::RateBytesPerSec(r) => UiView {
                status: decimal(r as nat) + " B/s"@,
                ..self
            },
            ProgressEventView::Completed(Ok(_)) => UiView {
                state: StateView::Idle,
                progress: PROGRESS_MAX,
                status: "Completed"@,
            },
            ProgressEventView::Completed(Err(e)) => UiView {
                state: StateView::Idle,
                progress: 0,
                status: "Error: "@ + e,
            },
        }
    }

    /// What is shown after a message from the event bus. A request to
    /// format is taken only while no format is under way and only if it
    /// breaks no rule: taken, it puts the interface in `Starting` with an
    /// empty bar; refused, it changes nothing.
    pub open spec fn after_msg(self, msg: Msg) -> UiView {
        match msg {
            Msg::Status(s) => self.after_event(ProgressEventView::Message(s@)),
            Msg::Progress(ev) => self.after_event(ev@),
            Msg::Start { opts, .. } => if self.is_busy() || start_fault(opts@) is Some {
                self
            } else {
                UiView { state: StateView::Starting, progress: 0, status: starting_text() }
            },
            Msg::RequestClose => if self.is_busy() {
                UiView { status: still_running_text(), ..self }
            } else {
                self
            },
            _ => self,
        }
    }
}

/// What is wrong with a request to format, if anything is: what the
/// orchestrator would refuse it for.
pub open spec fn start_fault(opts: crate::backends::FormatOptionsView) -> Option<Seq<char>> {
    request_error(opts.fs, opts.label, opts.cluster_or_block_size)
}

/// A request to format that comes while a format is being started or runs
/// is refused: nothing that is shown changes, whatever the request.
pub proof fn lemma_start_is_refused_while_busy(ui: UiView, obj_path: String, opts: FormatOptions)
    requires
        ui.is_busy(),
    ensures
        ui.after_msg(Msg::Start { obj_path, opts }) == ui,
{
}

/// The interface is an observer like any other: where it takes the job
/// to stand after an event is where the event alone says that it stands,
/// and its progress bar never leaves its range.
pub proof fn lemma_interface_follows_events(ui: UiView, ev: ProgressEventView)
    requires
        ui.progress <= PROGRESS_MAX,
    ensures
        ui.after_event(ev).state == ui.state.after(ev),
        ui.after_event(ev).progress <= PROGRESS_MAX,
{
}

impl Ui {
    #[verifier::type_invariant]
    spec fn bar_in_range(self) -> bool {
        self.progress <= PROGRESS_MAX
    }

    /// An interface that shows no job.
    pub fn build() -> (r: Ui)
        ensures
            r@ == (UiView { state: StateView::Idle, progress: 0, status: Seq::empty() }),
    {
        Ui { state: OrchestratorState::Idle, progress: 0, status: String::new() }
    }

    /// Where the job stands.
    pub fn state(&self) -> (r: OrchestratorState)
        ensures
            r@ == self@.state,
    {
        self.state.clone()
    }

    /// How far the progress bar is, from 0 to `PROGRESS_MAX`.
    pub fn progress_value(&self) -> (r: u8)
        ensures
            r == self@.progress,
            r <= PROGRESS_MAX,
    {
        proof {
            use_type_invariant(self);
        }
        self.progress
    }

    /// The line of news.
    pub fn status_text(&self) -> (r: String)
        ensures
            r@ == self@.status,
    {
        self.status.clone()
    }

    /// Puts the job where `new_state` says, and leaves the rest as it is.
    pub fn set_state(&mut self, new_state: OrchestratorState)
        ensures
            final(self)@ == (UiView { state: new_state@, ..old(self)@ }),
    {
        proof {
            use_type_invariant(&*self);
        }
        self.state = new_state;
    }

    /// Which buttons can be pressed: `Start` while no job is there, and
    /// `Cancel` while one runs.
    pub fn sync_ui_to_state(&self) -> (r: (bool, bool))
        ensures
            r.0 == (self@.state is Idle),
            r.1 == (self@.state is Formatting),
    {
        match self.state {
            OrchestratorState::Idle => (true, false),
            OrchestratorState::Starting => (false, false),
            OrchestratorState::Formatting { .. } => (false, true),
        }
    }

    /// Whether a format is being started or runs.
    pub fn is_busy(&self) -> (r: bool)
        ensures
            r == self@.is_busy(),
    {
        match self.state {
            OrchestratorState::Idle => false,
            _ => true,
        }
    }

    /// The job that runs, if one does.
    pub fn active_job_id(&self) -> (r: Option<String>)
        ensures
            match self@.state {
                StateView::Formatting { job_id } => r matches Some(id) && id@ == job_id,
                _ => r is None,
            },
    {
        match &self.state {
            OrchestratorState::Formatting { job_id } => Some(job_id.clone()),
            _ => None,
        }
    }

    /// Takes an event into what is shown.
    pub fn update_progress(&mut self, ev: ProgressEvent)
        ensures
            final(self)@ == old(self)@.after_event(ev@),
    {
        proof {
            use_type_invariant(&*self);
        }
        match ev {
            ProgressEvent::JobStarted(job_id) => {
                self.state = OrchestratorState::Formatting { job_id };
            },
            ProgressEvent::Percent(p) => {
                self.progress = if p > PROGRESS_MAX {
                    PROGRESS_MAX
                } else {
                    p
                };
            },
            ProgressEvent::Message(m) => {
                self.status = m;
            },
            ProgressEvent::RateBytesPerSec(r) => {
                let mut line = decimal_text(r);
                line.append(" B/s");
                self.status = line;
            },
            ProgressEvent::Completed(res) => {
                match res {
                    Ok(_) => {
                        self.progress = PROGRESS_MAX;
                        self.status = String::from_str("Completed");
                    },
                    Err(e) => {
                        self.progress = 0;
                        let mut line = String::from_str("Error: ");
                        line.append(e.as_str());
                        self.status = line;
                    },
                }
                self.state = OrchestratorState::Idle;
            },
        }
    }

    /// Takes a message from the event bus: what is shown changes as
    /// `after_msg` says, and the result is what else is to be done. The
    /// devices are offered; a status line is also shown in a dialog; a
    /// request to format is passed on to the disk service while no format
    /// is under way, is refused without a trace while one is, and is
    /// refused with a word to the user where it breaks a rule; a request
    /// to cancel is passed on while a job runs; the window closes on
    /// request unless a format is under way, of which the user is told
    /// instead.
    pub fn handle_msg(&mut self, msg: Msg) -> (r: Vec<UiAction>)
        ensures
            final(self)@ == old(self)@.after_msg(msg),
            match msg {
                Msg::Devices(devs) => r@.len() == 1 && r@[0] == UiAction::ShowDevices(devs),
                Msg::Status(s) => r@.len() == 1 && (r@[0] matches UiAction::Dialog(text) && text@
                    == s@),
                Msg::Progress(_) => r@.len() == 0,
                Msg::Start { obj_path, opts } => if old(self)@.is_busy() {
                    r@.len() == 0
                } else {
                    r@.len() == 1 && match start_fault(opts@) {
                        Some(e) => r@[0] matches UiAction::Dialog(text) && text@ == rejected_text(e),
                        None => r@[0] == (UiAction::Format { obj_path, opts }),
                    }
                },
                Msg::Cancel => match old(self)@.state {
                    StateView::Formatting { job_id } => r@.len() == 1 && (
                    r@[0] matches UiAction::CancelJob { job_id: id } && id@ == job_id),
                    _ => r@.len() == 0,
                },
                Msg::RequestClose => r@.len() == 1 && if old(self)@.is_busy() {
                    r@[0] matches UiAction::Dialog(text) && text@ == still_running_text()
                } else {
                    r@[0] == UiAction::Quit
                },
            },
    {
        let mut actions: Vec<UiAction> = Vec::new();
        match msg {
            Msg::Devices(devs) => {
                actions.push(UiAction::ShowDevices(devs));
            },
            Msg::Status(s) => {
                self.update_progress(ProgressEvent::Message(s.clone()));
                actions.push(UiAction::Dialog(s));
            },
            Msg::Progress(ev) => {
                self.update_progress(ev);
            },
            Msg::Start { obj_path, opts } => {
                if !self.is_busy() {
                    match build_format_options(
                        opts.fs.clone(),
                        opts.label.clone(),
                        opts.quick,
                        opts.cluster_or_block_size,
                        opts.partition_table,
                    ) {
                        Ok(_) => {
                            self.set_state(OrchestratorState::Starting);
                            self.update_progress(ProgressEvent::Percent(0));
                            self.update_progress(
                                ProgressEvent::Message(String::from_str("Starting...")),
                            );
                            actions.push(UiAction::Format { obj_path, opts });
                        },
                        Err(e) => {
                            let mut text = String::from_str("Format failed: ");
                            text.append(e.as_str());
                            actions.push(UiAction::Dialog(text));
                        },
                    }
                }
            },
            Msg::Cancel => {
                if let Some(job_id) = self.active_job_id() {
                    actions.push(UiAction::CancelJob { job_id });
                }
            },
            Msg::RequestClose => {
                if self.is_busy() {
                    let text = "A format is still running. Cancel it before closing.";
                    self.update_progress(ProgressEvent::Message(String::from_str(text)));
                    actions.push(UiAction::Dialog(String::from_str(text)));
                } else {
                    actions.push(UiAction::Quit);
                }
            },
        }
        actions
    }
}

/// What is said once a format has come back to whoever asked for it:
/// nothing after a good end, and a line with the reason after every other.
/// The end of the format itself is never reported here: a job that was
/// started has reported its own end, the orchestrator has reported the end
/// of a start that failed or was given up, and a request that was refused
/// has no end to report.
pub open spec fn finished_line(end: FormatEnd) -> Option<Seq<char>> {
    match end {
        FormatEnd::Formatted(_) => None,
        FormatEnd::NotStarted(e) => Some(rejected_text(e@.message())),
        FormatEnd::Failed(reason) => Some(rejected_text(reason@)),
    }
}

/// Decides what goes on the event bus once a format has come back.
pub fn format_finished(end: &FormatEnd) -> (r: Option<Msg>)
    ensures
        match finished_line(*end) {
            Some(line) => r matches Some(Msg::Status(text)) && text@ == line,
            None => r is None,
        },
{
    let reason = match end {
        FormatEnd::Formatted(_) => {
            return None;
        },
        FormatEnd::NotStarted(e) => e.message(),
        FormatEnd::Failed(reason) => reason.clone(),
    };
    let mut text = String::from_str("Format failed: ");
    text.append(reason.as_str());
    Some(Msg::Status(text))
}

/// Decides what goes on the event bus after the devices were asked for
/// again at the end of a format that named `path`: the devices and a line
/// that all is ready, or a line that says why the devices are not known.
pub fn refreshed(path: &str, listed: Result<Vec<BlockDevice>, ListError>) -> (r: Vec<Msg>)
    ensures
        match listed {
            Ok(devs) => r@.len() == 2 && r@[0] == Msg::Devices(devs) && (
            r@[1] matches Msg::Status(text) && text@ == "Ready: "@ + path@),
            Err(e) => r@.len() == 1 && (r@[0] matches Msg::Status(text) && text@
                == "Refresh failed: "@ + e.0@),
        },
{
    let mut r: Vec<Msg> = Vec::new();
    match listed {
        Ok(devs) => {
            r.push(Msg::Devices(devs));
            let mut text = String::from_str("Ready: ");
            text.append(path);
            r.push(Msg::Status(text));
        },
        Err(e) => {
            let mut text = String::from_str("Refresh failed: ");
            text.append(e.0.as_str());
            r.push(Msg::Status(text));
        },
    }
    r
}

/// Decides what goes on the event bus after the devices were asked for
/// when the window opens: the devices, or a line that says why they are
/// not known.
pub fn listed(devices: Result<Vec<BlockDevice>, ListError>) -> (r: Msg)
    ensures
        match devices {
            Ok(devs) => r == Msg::Devices(devs),
            Err(e) => r matches Msg::Status(text) && text@ == "List error: "@ + e.0@,
        },
{
    match devices {
        Ok(devs) => Msg::Devices(devs),
        Err(e) => {
            let mut text = String::from_str("List error: ");
            text.append(e.0.as_str());
            Msg::Status(text)
        },
    }
}

/// What the list of filesystems holds: the filesystems that can be made,
/// with the preferred one selected, or one entry that says that there are
/// none, on a list that cannot be used.
#[derive(Debug, PartialEq, Eq)]
pub struct FsChoices {
    pub entries: Vec<String>,
    pub selected: Option<usize>,
    pub enabled: bool,
}

/// What the list of filesystems says where none can be made.
pub open spec fn no_tools_entry() -> Seq<char> {
    "(No filesystem tools found)"@
}

/// Fills the list of filesystems from those that can be made here.
pub fn fs_choices(supported: &[&str]) -> (r: FsChoices)
    ensures
        r.enabled == (supported@.len() > 0),
        holds(
            r.entries@,
            if supported@.len() > 0 {
                crate::utils::names(supported@)
            } else {
                seq![no_tools_entry()]
            },
        ),
        match r.selected {
            Some(i) => if supported@.len() > 0 {
                &&& crate::utils::default_kind(crate::utils::names(supported@)) matches Some(kind)
                &&& i < supported@.len()
                &&& supported@[i as int]@ == crate::backends::fs_name_text(kind)
                &&& forall|j: int| 0 <= j < i ==> supported@[j]@ != crate::backends::fs_name_text(kind)
            } else {
                i == 0
            },
            None => supported@.len() > 0 && crate::utils::default_kind(
                crate::utils::names(supported@),
            ) is None,
        },
{
    let mut entries: Vec<String> = Vec::new();
    if supported.len() == 0 {
        entries.push(String::from_str("(No filesystem tools found)"));
        return FsChoices { entries, selected: Some(0), enabled: false };
    }
    let mut i: usize = 0;
    while i < supported.len()
        invariant
            i <= supported.len(),
            entries@.len() == i,
            forall|j: int| 0 <= j < i ==> (#[trigger] entries@[j])@ == supported@[j]@,
        decreases supported.len() - i,
    {
        entries.push(String::from_str(supported[i]));
        i += 1;
    }
    let selected = match crate::utils::default_fs(supported) {
        Some(def) => first_position(supported, def),
        None => None,
    };
    proof {
        let list = crate::utils::names(supported@);
        match crate::utils::default_kind(list) {
            Some(kind) => {
                crate::utils::lemma_default_is_supported(list);
                let name = crate::backends::fs_name_text(kind);
                let k = choose|k: int| 0 <= k < list.len() && list[k] == name;
            },
            None => {},
        }
    }
    FsChoices { entries, selected, enabled: true }
}

/// Where `name` stands first in `list`.
fn first_position(list: &[&str], name: &str) -> (r: Option<usize>)
    ensures
        match r {
            Some(i) => i < list@.len() && list@[i as int]@ == name@ && forall|j: int|
                0 <= j < i ==> list@[j]@ != name@,
            None => forall|j: int| 0 <= j < list@.len() ==> list@[j]@ != name@,
        },
{
    let mut i: usize = 0;
    while i < list.len()
        invariant
            i <= list.len(),
            forall|j: int| 0 <= j < i ==> list@[j]@ != name@,
        decreases list.len() - i,
    {
        if crate::text::same_text(list[i], name) {
            return Some(i);
        }
        i += 1;
    }
    None
}

/// Whether a partition table can be chosen for the device at `idx` of the
/// list: not for a partition, which has none of its own.
pub fn table_choice_enabled(devs: &[BlockDevice], idx: i32) -> (r: bool)
    ensures
        r == !(0 <= idx < devs@.len() && devs@[idx as int].is_partition),
{
    if idx >= 0 && (idx as usize) < devs.len() {
        !devs[idx as usize].is_partition
    } else {
        true
    }
}

/// What pressing `Start` leads to first.
#[derive(Debug, PartialEq, Eq)]
pub enum StartClick {
    /// No filesystem can be made here; the user is told.
    NoTools { notice: String },
    /// No device is selected; nothing happens.
    NoDevice,
    /// The user is asked whether to erase the device `obj_path`.
    Confirm { obj_path: String, question: String },
}

/// What is said where no filesystem can be made.
pub open spec fn no_tools_notice() -> Seq<char> {
    "No filesystem formatting tools found. Please install mkfs utilities (e.g., mkfs.vfat, mkfs.ext4)."@
}

/// The question that is asked before a device is erased.
pub open spec fn erase_question(obj_path: Seq<char>) -> Seq<char> {
    "WARNING: Formatting will erase all data on "@ + obj_path + ". Continue?"@
}

/// Decides what pressing `Start` leads to, for the device at `idx` of the
/// list and `supported` filesystems that can be made.
pub fn start_clicked(supported: usize, devs: &[BlockDevice], idx: i32) -> (r: StartClick)
    ensures
        if supported == 0 {
            r matches StartClick::NoTools { notice } && notice@ == no_tools_notice()
        } else if !(0 <= idx < devs@.len()) {
            r == StartClick::NoDevice
        } else {
            r matches StartClick::Confirm { obj_path, question } && obj_path@
                == devs@[idx as int].object_path@ && question@ == erase_question(obj_path@)
        },
{
    if supported == 0 {
        return StartClick::NoTools {
            notice: String::from_str(
                "No filesystem formatting tools found. Please install mkfs utilities (e.g., mkfs.vfat, mkfs.ext4).",
            ),
        };
    }
    if idx < 0 || (idx as usize) >= devs.len() {
        return StartClick::NoDevice;
    }
    let obj_path = devs[idx as usize].object_path.clone();
    let mut question = String::from_str("WARNING: Formatting will erase all data on ");
    question.append(obj_path.as_str());
    question.append(". Continue?");
    StartClick::Confirm { obj_path, question }
}

/// The values that the user chose in the window.
#[derive(Debug, PartialEq, Eq)]
pub struct FormInput {
    pub fs: Option<String>,
    pub label: String,
    pub size: Option<String>,
    pub quick: bool,
    pub table: Option<String>,
}

/// What the answer to the question leads to.
#[derive(Debug, PartialEq)]
pub enum StartDecision {
    /// The user did not say yes; nothing happens.
    Abandoned,
    /// The request breaks a rule; the user is told which.
    Invalid { notice: String },
    /// The request goes on the event bus.
    Send(Msg),
}

/// What is said of a request that breaks a rule other than those for the
/// label.
pub open spec fn rejected_text(reason: Seq<char>) -> Seq<char> {
    "Format failed: "@ + reason
}

/// The answer that stands for yes.
pub const ANSWER_YES: i32 = 1;

/// Decides what the answer to the question leads to: only a yes goes on.
/// The request is then made of what the user chose, with `vfat` where no
/// filesystem is chosen and no label where the label is left empty. Of a
/// request that breaks a rule the user is told, and nothing is sent.
pub fn start_confirmed(answer: Option<i32>, obj_path: String, input: FormInput) -> (r:
    StartDecision)
    ensures
        if answer != Some(ANSWER_YES) {
            r == StartDecision::Abandoned
        } else {
            let fs = fs_or_vfat(crate::backends::opt_text(input.fs));
            let label = if input.label@.len() == 0 {
                None
            } else {
                Some(input.label@)
            };
            let unit = size_choice_value(crate::backends::opt_text(input.size));
            match crate::utils::request_error(fs, label, unit) {
                Some(e) => r matches StartDecision::Invalid { notice } && notice@ == if crate::cli::label_rejected(
                    label,
                    fs,
                ) {
                    crate::cli::invalid_label_text(e)
                } else {
                    rejected_text(e)
                },
                None => r matches StartDecision::Send(Msg::Start { obj_path: p, opts }) && p
                    == obj_path && opts@ == (crate::backends::FormatOptionsView {
                    fs,
                    label,
                    quick: input.quick,
                    cluster_or_block_size: unit,
                    partition_table: Some(
                        if input.table matches Some(s) && "MBR"@.is_prefix_of(s@) {
                            PartitionTable::Dos
                        } else {
                            PartitionTable::Gpt
                        },
                    ),
                }),
            }
        },
{
    match answer {
        Some(a) => {
            if a != ANSWER_YES {
                return StartDecision::Abandoned;
            }
        },
        None => {
            return StartDecision::Abandoned;
        },
    }
    let fs = match input.fs {
        Some(fs) => fs,
        None => String::from_str("vfat"),
    };
    let label = if input.label.as_str().is_empty() {
        None
    } else {
        Some(input.label)
    };
    let size = match &input.size {
        Some(s) => crate::utils::parse_size_choice_label(Some(s.as_str())),
        None => crate::utils::parse_size_choice_label(None),
    };
    let partition_table = match &input.table {
        Some(s) => parse_partition_table_choice(Some(s.as_str())),
        None => parse_partition_table_choice(None),
    };
    let label_is_wrong = match &label {
        Some(text) => crate::utils::validate_label(text.as_str(), fs.as_str()).is_some(),
        None => false,
    };
    match crate::utils::build_format_options(fs, label, input.quick, size, partition_table) {
        Ok(opts) => StartDecision::Send(Msg::Start { obj_path, opts }),
        Err(err) => {
            let mut notice = if label_is_wrong {
                String::from_str("Invalid label: ")
            } else {
                String::from_str("Format failed: ")
            };
            notice.append(err.as_str());
            StartDecision::Invalid { notice }
        },
    }
}

} // verus!
