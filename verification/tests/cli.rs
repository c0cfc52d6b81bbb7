use diskfmt::backends::{FormatOptions, PartitionTable};
use diskfmt::cli::{
    format_outcome, map_partition_table_opt, plan_outcome, report, Cli, CliOutcome, CliPlan,
    Command, PartitionTableOpt, Report, Route,
};
use diskfmt::orchestrator::{FormatEnd, StartError};
use diskfmt::style::{SchemeOpt, Style, ThemeOpt};

fn cli(command: Option<Command>) -> Cli {
    Cli { start_ui: false, mock_backend: false, theme: None, scheme: None, command }
}

fn format(fs: Option<&str>, label: Option<&str>, size: Option<&str>) -> Command {
    Command::Format {
        path: "/dev/sdx1".to_string(),
        fs: fs.map(|s| s.to_string()),
        label: label.map(|s| s.to_string()),
        quick: true,
        size: size.map(|s| s.to_string()),
        table: Some(PartitionTableOpt::Dos),
    }
}

#[test]
fn partition_table_choices() {
    assert_eq!(map_partition_table_opt(Some(PartitionTableOpt::Dos)), Some(PartitionTable::Dos));
    assert_eq!(map_partition_table_opt(Some(PartitionTableOpt::Gpt)), Some(PartitionTable::Gpt));
    assert_eq!(map_partition_table_opt(None), None);
}

#[test]
fn config_command_comes_first() {
    let config = Command::Config { print: true, path: false, edit: false, init: false, force: false };
    let mut c = cli(Some(config));
    c.start_ui = true;
    c.theme = Some(ThemeOpt::Nord);
    c.scheme = Some(SchemeOpt::Fleet2);
    assert_eq!(
        c.route(true, None, None),
        Route::Config { cli_theme: Some(ThemeOpt::Nord), cli_scheme: Some(SchemeOpt::Fleet2) }
    );
    assert_eq!(c.route(false, None, None), Route::Config { cli_theme: None, cli_scheme: None });
}

#[test]
fn graphical_interface_starts_where_nothing_else_is_asked() {
    let mut c = cli(None);
    c.theme = Some(ThemeOpt::Mint);
    assert_eq!(
        c.route(true, Some(ThemeOpt::Gray), Some(SchemeOpt::Fleet2)),
        Route::Gui(Style { theme: ThemeOpt::Mint, scheme: SchemeOpt::Fleet2 })
    );
    assert_eq!(c.route(false, None, None), Route::Console);
    let mut c = cli(Some(Command::List));
    assert_eq!(c.route(true, None, None), Route::Console);
    c.start_ui = true;
    assert_eq!(
        c.route(true, None, None),
        Route::Gui(Style { theme: ThemeOpt::Dark2, scheme: SchemeOpt::Fleet1 })
    );
    assert_eq!(c.route(false, None, None), Route::Console);
}

#[test]
fn plans_of_the_console() {
    assert_eq!(Cli::start(cli(None), false, &[]), CliPlan::Help);
    assert_eq!(Cli::start(cli(None), true, &[]), CliPlan::NoSubcommand);
    assert_eq!(Cli::start(cli(Some(Command::List)), false, &[]), CliPlan::List);
    assert_eq!(
        Cli::start(cli(Some(Command::Cancel { job_id: "j1".to_string() })), false, &[]),
        CliPlan::Cancel { job_id: "j1".to_string() }
    );
}

#[test]
fn format_plan() {
    let plan = Cli::start(cli(Some(format(Some("ext4"), Some("root"), Some("4096 bytes")))), false, &[]);
    assert_eq!(
        plan,
        CliPlan::Format {
            path: "/dev/sdx1".to_string(),
            opts: FormatOptions {
                fs: "ext4".to_string(),
                label: Some("root".to_string()),
                quick: true,
                cluster_or_block_size: Some(4096),
                partition_table: Some(PartitionTable::Dos),
            },
        }
    );
}

#[test]
fn format_plan_picks_the_preferred_filesystem() {
    let fs_of = |plan: CliPlan| match plan {
        CliPlan::Format { opts, .. } => opts.fs,
        other => panic!("unexpected plan: {other:?}"),
    };
    let plan = Cli::start(cli(Some(format(None, None, Some("Auto")))), false, &["xfs", "ext4"]);
    assert_eq!(fs_of(plan), "ext4");
    let plan = Cli::start(cli(Some(format(None, None, None))), false, &[]);
    assert_eq!(fs_of(plan), "vfat");
    let plan = Cli::start(cli(Some(format(Some("btrfs"), None, None))), false, &["exfat"]);
    assert_eq!(fs_of(plan), "btrfs");
}

#[test]
fn format_plan_of_an_invalid_request() {
    let plan = Cli::start(cli(Some(format(Some("vfat"), Some("TOO_LONG_LABEL_X"), None))), false, &[]);
    assert_eq!(plan, CliPlan::InvalidLabel { reason: "vfat: max 11 bytes".to_string() });
    let plan = Cli::start(cli(Some(format(Some("exfat"), Some("a*b"), Some("0 bytes")))), false, &[]);
    assert_eq!(plan, CliPlan::InvalidLabel { reason: "exfat: invalid characters".to_string() });
}

#[test]
fn format_plan_of_a_request_that_is_refused_for_another_reason() {
    let plan = Cli::start(cli(Some(format(Some("vfat"), None, Some("0 sectors")))), false, &[]);
    assert_eq!(plan, CliPlan::Rejected { reason: "allocation unit must be positive".to_string() });
    let plan = Cli::start(cli(Some(format(Some("zfs"), Some("any label"), None))), false, &[]);
    assert_eq!(plan, CliPlan::Rejected { reason: "Unsupported filesystem: zfs".to_string() });
}

#[test]
fn reports_and_exit_codes() {
    let text = |s: &str| s.to_string();
    assert_eq!(
        report(&CliOutcome::Listed),
        Report { line: None, to_stderr: false, exit_code: 0 }
    );
    assert_eq!(
        report(&CliOutcome::ListFailed(text("e"))),
        Report { line: Some(text("List error: e")), to_stderr: true, exit_code: 1 }
    );
    assert_eq!(
        report(&CliOutcome::InvalidLabel(text("vfat: max 11 bytes"))),
        Report { line: Some(text("Invalid label: vfat: max 11 bytes")), to_stderr: true, exit_code: 2 }
    );
    assert_eq!(
        report(&CliOutcome::Formatted(text("disk-1p1"))),
        Report { line: Some(text("Ready: disk-1p1")), to_stderr: false, exit_code: 0 }
    );
    assert_eq!(
        report(&CliOutcome::FormatFailed(text("e"))),
        Report { line: Some(text("Format failed: e")), to_stderr: true, exit_code: 1 }
    );
    assert_eq!(
        report(&CliOutcome::JoinFailed(text("e"))),
        Report { line: Some(text("Format task failed to join: e")), to_stderr: true, exit_code: 1 }
    );
    assert_eq!(
        report(&CliOutcome::CancelRequested(text("j1"))),
        Report { line: Some(text("Cancellation requested for job j1")), to_stderr: false, exit_code: 0 }
    );
    assert_eq!(
        report(&CliOutcome::CancelFailed(text("e"))),
        Report { line: Some(text("Cancel failed: e")), to_stderr: true, exit_code: 1 }
    );
}

#[test]
fn plans_that_end_without_the_disk_service() {
    let text = |s: &str| s.to_string();
    assert_eq!(
        plan_outcome(&CliPlan::InvalidLabel { reason: text("vfat: max 11 bytes") }),
        Some(CliOutcome::InvalidLabel(text("vfat: max 11 bytes")))
    );
    assert_eq!(
        plan_outcome(&CliPlan::Rejected { reason: text("Unsupported filesystem: zfs") }),
        Some(CliOutcome::FormatFailed(text("Unsupported filesystem: zfs")))
    );
    assert_eq!(plan_outcome(&CliPlan::List), None);
    assert_eq!(plan_outcome(&CliPlan::Help), None);
    assert_eq!(plan_outcome(&CliPlan::Cancel { job_id: text("j") }), None);
}

#[test]
fn outcomes_of_a_format() {
    let text = |s: &str| s.to_string();
    assert_eq!(
        format_outcome(FormatEnd::Formatted(text("disk-1p1"))),
        CliOutcome::Formatted(text("disk-1p1"))
    );
    assert_eq!(
        format_outcome(FormatEnd::Failed(text("cancelled"))),
        CliOutcome::FormatFailed(text("cancelled"))
    );
    assert_eq!(
        format_outcome(FormatEnd::NotStarted(StartError::Busy)),
        CliOutcome::FormatFailed(text("a format is already running"))
    );
    assert_eq!(
        format_outcome(FormatEnd::NotStarted(StartError::Backend(text("no such device")))),
        CliOutcome::FormatFailed(text("no such device"))
    );
    assert_eq!(report(&format_outcome(FormatEnd::Failed(text("x")))).exit_code, 1);
    assert_eq!(report(&format_outcome(FormatEnd::Formatted(text("x")))).exit_code, 0);
}
