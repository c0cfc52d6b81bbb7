//! The command line: what was asked for, what is done about it, and how
//! the program ends.

use vstd::prelude::*;

use crate::backends::{fs_name_text, opt_text, FormatOptions, FormatOptionsView, PartitionTable};
use crate::orchestrator::FormatEnd;
use crate::style::{resolve, resolved, SchemeOpt, Style, ThemeOpt};
use crate::utils::{
    build_format_options, default_fs, default_kind, label_error, names, parse_size_choice_label,
    request_error, size_choice_value, stored_label, validate_label,
};

verus! {

/// A partition table, as it is named on the command line.
#[derive(Clone, Copy, Debug, PartialEq, Eq, Structural)]
pub enum PartitionTableOpt {
    Gpt,
    Dos,
}

/// The partition table that a choice on the command line stands for.
pub open spec fn table_of(table: Option<PartitionTableOpt>) -> Option<PartitionTable> {
    match table {
        Some(PartitionTableOpt::Dos) => Some(PartitionTable::Dos),
        Some(PartitionTableOpt::Gpt) => Some(PartitionTable::Gpt),
        None => None,
    }
}

/// Turns a choice on the command line into the partition table that it
/// stands for.
pub fn map_partition_table_opt(table: Option<PartitionTableOpt>) -> (r: Option<PartitionTable>)
    ensures
        r == table_of(table),
{
    match table {
        Some(PartitionTableOpt::Dos) => Some(PartitionTable::Dos),
        Some(PartitionTableOpt::Gpt) => Some(PartitionTable::Gpt),
        None => None,
    }
}

/// What the command line asks for.
#[derive(Debug, PartialEq, Eq)]
#[allow(inconsistent_fields)]
pub enum Command {
    /// List the devices that may be formatted.
    List,
    /// Show or manage the configuration.
    Config { print: bool, path: bool, edit: bool, init: bool, force: bool },
    /// Format a device.
    Format {
        path: String,
        fs: Option<String>,
        label: Option<String>,
        quick: bool,
        size: Option<String>,
        table: Option<PartitionTableOpt>,
    },
    /// Cancel a running job.
    Cancel { job_id: String },
}

/// The command line as a whole.
#[derive(Debug, PartialEq, Eq)]
pub struct Cli {
    /// Start the graphical interface.
    pub start_ui: bool,
    /// Use the stand-in for the disk service.
    pub mock_backend: bool,
    /// The colour theme of the graphical interface.
    pub theme: Option<ThemeOpt>,
    /// The widget scheme of the graphical interface.
    pub scheme: Option<SchemeOpt>,
    pub command: Option<Command>,
}

/// Which part of the program a command line leads to.
#[derive(Debug, PartialEq, Eq)]
pub enum Route {
    /// The configuration is shown or managed. The looks that the command
    /// line chose count only where there is a graphical interface.
    Config { cli_theme: Option<ThemeOpt>, cli_scheme: Option<SchemeOpt> },
    /// The graphical interface starts, with these looks.
    Gui(Style),
    /// The command runs on the console.
    Console,
}

/// What is done on the console.
#[derive(Debug, PartialEq, Eq)]
pub enum CliPlan {
    /// The usage is shown, and that is all.
    Help,
    /// Nothing was asked for, and there is nothing to fall back on.
    NoSubcommand,
    /// The devices are listed.
    List,
    /// The device `path` is formatted as `opts` say.
    Format { path: String, opts: FormatOptions },
    /// The label does not fit the filesystem; `reason` says why.
    InvalidLabel { reason: String },
    /// The request to format breaks another rule; `reason` says which.
    Rejected { reason: String },
    /// The job `job_id` is cancelled.
    Cancel { job_id: String },
}

/// How a command on the console went.
#[derive(Debug, PartialEq, Eq)]
pub enum CliOutcome {
    /// The devices were listed.
    Listed,
    /// The disk service could not list the devices.
    ListFailed(String),
    /// The label did not fit the filesystem.
    InvalidLabel(String),
    /// The device was formatted; the text names the formatted partition.
    Formatted(String),
    /// The format failed.
    FormatFailed(String),
    /// The task that ran the format was lost.
    JoinFailed(String),
    /// The disk service took the cancellation of the job that is named.
    CancelRequested(String),
    /// The disk service refused the cancellation.
    CancelFailed(String),
}

/// The last line that a command writes, where it goes, and the status
/// with which the program ends.
#[derive(Debug, PartialEq, Eq)]
pub struct Report {
    pub line: Option<String>,
    pub to_stderr: bool,
    pub exit_code: i32,
}

/// What is said of a label that does not fit the filesystem.
pub open spec fn invalid_label_text(reason: Seq<char>) -> Seq<char> {
    "Invalid label: "@ + reason
}

/// The status with which the program ends: 0 where all went well, 2 for a
/// label that does not fit the filesystem, 1 for every other failure.
pub open spec fn exit_code_of(outcome: CliOutcome) -> i32 {
    match outcome {
        CliOutcome::Listed | CliOutcome::Formatted(_) | CliOutcome::CancelRequested(_) => 0,
        CliOutcome::InvalidLabel(_) => 2,
        _ => 1,
    }
}

/// The last line that a command writes, if it writes one.
pub open spec fn last_line_of(outcome: CliOutcome) -> Option<Seq<char>> {
    match outcome {
        CliOutcome::Listed => None,
        CliOutcome::ListFailed(e) => Some("List error: "@ + e@),
        CliOutcome::InvalidLabel(e) => Some(invalid_label_text(e@)),
        CliOutcome::Formatted(path) => Some("Ready: "@ + path@),
        CliOutcome::FormatFailed(e) => Some("Format failed: "@ + e@),
        CliOutcome::JoinFailed(e) => Some("Format task failed to join: "@ + e@),
        CliOutcome::CancelRequested(id) => Some("Cancellation requested for job "@ + id@),
        CliOutcome::CancelFailed(e) => Some("Cancel failed: "@ + e@),
    }
}

/// How a plan ends that needs no disk service: a request that breaks a
/// rule ends at once, as a label that does not fit or as a format that
/// failed. Every other plan has yet to be carried out.
pub open spec fn settled_outcome(plan: CliPlan) -> Option<CliOutcome> {
    match plan {
        CliPlan::InvalidLabel { reason } => Some(CliOutcome::InvalidLabel(reason)),
        CliPlan::Rejected { reason } => Some(CliOutcome::FormatFailed(reason)),
        _ => None,
    }
}

/// Says how a plan ends that needs no disk service.
pub fn plan_outcome(plan: &CliPlan) -> (r: Option<CliOutcome>)
    ensures
        r == settled_outcome(*plan),
{
    match plan {
        CliPlan::InvalidLabel { reason } => Some(CliOutcome::InvalidLabel(reason.clone())),
        CliPlan::Rejected { reason } => Some(CliOutcome::FormatFailed(reason.clone())),
        _ => None,
    }
}

/// How a format ended, as the console tells it: a good end names the
/// formatted partition, and every other end is a format that failed, with
/// the reason.
pub fn format_outcome(end: FormatEnd) -> (r: CliOutcome)
    ensures
        match end {
            FormatEnd::Formatted(path) => r == CliOutcome::Formatted(path),
            FormatEnd::NotStarted(e) => r matches CliOutcome::FormatFailed(text) && text@
                == e@.message(),
            FormatEnd::Failed(reason) => r == CliOutcome::FormatFailed(reason),
        },
{
    match end {
        FormatEnd::Formatted(path) => CliOutcome::Formatted(path),
        FormatEnd::NotStarted(e) => CliOutcome::FormatFailed(e.message()),
        FormatEnd::Failed(reason) => CliOutcome::FormatFailed(reason),
    }
}

fn prefixed(prefix: &str, text: &str) -> (r: String)
    ensures
        r@ == prefix@ + text@,
{
    let mut r = String::from_str(prefix);
    r.append(text);
    r
}

/// Says how the program ends after a command: good news goes to the
/// standard output, bad news to the standard error.
pub fn report(outcome: &CliOutcome) -> (r: Report)
    ensures
        opt_text(r.line) == last_line_of(*outcome),
        r.exit_code == exit_code_of(*outcome),
        r.to_stderr == (r.exit_code != 0),
{
    match outcome {
        CliOutcome::Listed => Report { line: None, to_stderr: false, exit_code: 0 },
        CliOutcome::ListFailed(e) => Report {
            line: Some(prefixed("List error: ", e.as_str())),
            to_stderr: true,
            exit_code: 1,
        },
        CliOutcome::InvalidLabel(e) => Report {
            line: Some(prefixed("Invalid label: ", e.as_str())),
            to_stderr: true,
            exit_code: 2,
        },
        CliOutcome::Formatted(path) => Report {
            line: Some(prefixed("Ready: ", path.as_str())),
            to_stderr: false,
            exit_code: 0,
        },
        CliOutcome::FormatFailed(e) => Report {
            line: Some(prefixed("Format failed: ", e.as_str())),
            to_stderr: true,
            exit_code: 1,
        },
        CliOutcome::JoinFailed(e) => Report {
            line: Some(prefixed("Format task failed to join: ", e.as_str())),
            to_stderr: true,
            exit_code: 1,
        },
        CliOutcome::CancelRequested(id) => Report {
            line: Some(prefixed("Cancellation requested for job ", id.as_str())),
            to_stderr: false,
            exit_code: 0,
        },
        CliOutcome::CancelFailed(e) => Report {
            line: Some(prefixed("Cancel failed: ", e.as_str())),
            to_stderr: true,
            exit_code: 1,
        },
    }
}

/// The filesystem of a format: the one that was named, else the preferred
/// one among those that can be made here, else `vfat`.
pub open spec fn chosen_fs(fs: Option<Seq<char>>, supported: Seq<Seq<char>>) -> Seq<char> {
    match fs {
        Some(name) => name,
        None => match default_kind(supported) {
            Some(kind) => fs_name_text(kind),
            None => "vfat"@,
        },
    }
}

/// Whether a request is refused for its label: it has one, and the label
/// does not fit the filesystem.
pub open spec fn label_rejected(label: Option<Seq<char>>, fs: Seq<char>) -> bool {
    label matches Some(text) && label_error(text, fs) is Some
}

impl Cli {
    /// Decides which part of the program the command line leads to. The
    /// configuration comes first. With a graphical interface at hand, it
    /// starts where it was asked for and where nothing else was; `gui`
    /// says whether there is one.
    pub fn route(&self, gui: bool, cfg_theme: Option<ThemeOpt>, cfg_scheme: Option<SchemeOpt>) -> (r:
        Route)
        ensures
            r == if self.command matches Some(Command::Config { .. }) {
                Route::Config {
                    cli_theme: if gui {
                        self.theme
                    } else {
                        None
                    },
                    cli_scheme: if gui {
                        self.scheme
                    } else {
                        None
                    },
                }
            } else if gui && (self.start_ui || self.command is None) {
                Route::Gui(resolved(self.theme, self.scheme, cfg_theme, cfg_scheme))
            } else {
                Route::Console
            },
    {
        if let Some(Command::Config { .. }) = &self.command {
            if gui {
                Route::Config { cli_theme: self.theme, cli_scheme: self.scheme }
            } else {
                Route::Config { cli_theme: None, cli_scheme: None }
            }
        } else if gui && (self.start_ui || self.command.is_none()) {
            Route::Gui(resolve(self.theme, self.scheme, cfg_theme, cfg_scheme))
        } else {
            Route::Console
        }
    }

    /// Decides what is done on the console. Without a command the usage is
    /// shown, unless there is a graphical interface, which should have
    /// started instead. A format is planned with the filesystem that was
    /// named, or with the preferred one among `supported`, and is given up
    /// where the request breaks a rule: a label that does not fit the
    /// filesystem is told apart from every other fault. The configuration
    /// is not handled here.
    pub fn start(cli: Cli, gui: bool, supported: &[&str]) -> (r: CliPlan)
        requires
            !(cli.command matches Some(Command::Config { .. })),
        ensures
            match cli.command {
                None => r == if gui {
                    CliPlan::NoSubcommand
                } else {
                    CliPlan::Help
                },
                Some(Command::List) => r == CliPlan::List,
                Some(Command::Cancel { job_id }) => r matches CliPlan::Cancel { job_id: id } && id@
                    == job_id@,
                Some(Command::Format { path, fs, label, quick, size, table }) => {
                    let fs_text = chosen_fs(opt_text(fs), names(supported@));
                    let unit = size_choice_value(opt_text(size));
                    match request_error(fs_text, opt_text(label), unit) {
                        Some(e) => if label_rejected(opt_text(label), fs_text) {
                            r matches CliPlan::InvalidLabel { reason } && reason@ == e
                        } else {
                            r matches CliPlan::Rejected { reason } && reason@ == e
                        },
                        None => r matches CliPlan::Format { path: p, opts } && p@ == path@
                            && opts@ == (FormatOptionsView {
                            fs: fs_text,
                            label: stored_label(opt_text(label)),
                            quick,
                            cluster_or_block_size: unit,
                            partition_table: table_of(table),
                        }),
                    }
                },
                Some(Command::Config { .. }) => true,
            },
    {
        match cli.command {
            None => {
                if gui {
                    CliPlan::NoSubcommand
                } else {
                    CliPlan::Help
                }
            },
            Some(Command::List) => CliPlan::List,
            Some(Command::Cancel { job_id }) => CliPlan::Cancel { job_id },
            Some(Command::Format { path, fs, label, quick, size, table }) => {
                let fs = match fs {
                    Some(f) => f,
                    None => match default_fs(supported) {
                        Some(name) => String::from_str(name),
                        None => String::from_str("vfat"),
                    },
                };
                let size = match &size {
                    Some(text) => parse_size_choice_label(Some(text.as_str())),
                    None => parse_size_choice_label(None),
                };
                let partition_table = map_partition_table_opt(table);
                let label_is_wrong = match &label {
                    Some(text) => validate_label(text.as_str(), fs.as_str()).is_some(),
                    None => false,
                };
                match build_format_options(fs, label, quick, size, partition_table) {
                    Ok(opts) => CliPlan::Format { path, opts },
                    Err(reason) => {
                        if label_is_wrong {
                            CliPlan::InvalidLabel { reason }
                        } else {
                            CliPlan::Rejected { reason }
                        }
                    },
                }
            },
            Some(Command::Config { .. }) => CliPlan::Help,
        }
    }
}

} // verus!
