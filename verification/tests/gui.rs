use diskfmt::backends::{BlockDevice, FormatOptions, PartitionTable, ProgressEvent};
use diskfmt::common::Msg;
use diskfmt::gui::{
    fill_size_choices, format_finished, fs_choices, listed, parse_partition_table_choice,
    refreshed, report_error, size_label_text, start_clicked, start_confirmed,
    table_choice_enabled, FormInput, FsChoices, StartClick, StartDecision, Ui, UiAction,
    ANSWER_YES, PROGRESS_MAX,
};
use diskfmt::orchestrator::{FormatEnd, ListError, OrchestratorState, StartError};
use diskfmt::utils::parse_size_choice_label;

fn device(id: &str, is_partition: bool) -> BlockDevice {
    BlockDevice {
        dev_path: format!("/dev/{id}"),
        object_path: id.to_string(),
        fs_type: None,
        label: None,
        size_bytes: None,
        vendor_model: None,
        is_partition,
    }
}

fn input(fs: Option<&str>, label: &str, size: Option<&str>, table: Option<&str>) -> FormInput {
    FormInput {
        fs: fs.map(|s| s.to_string()),
        label: label.to_string(),
        size: size.map(|s| s.to_string()),
        quick: true,
        table: table.map(|s| s.to_string()),
    }
}

fn formatting(id: &str) -> OrchestratorState {
    OrchestratorState::Formatting { job_id: id.to_string() }
}

#[test]
fn failure_report() {
    let (status, end) = report_error("Format", "device busy");
    assert_eq!(status, Msg::Status("Format failed: device busy".to_string()));
    assert_eq!(end, Msg::Progress(ProgressEvent::Completed(Err("device busy".to_string()))));
}

#[test]
fn size_choices_by_filesystem() {
    let vfat = [
        "Auto", "1 sector", "2 sectors", "4 sectors", "8 sectors", "16 sectors", "32 sectors",
        "64 sectors", "128 sectors",
    ];
    assert_eq!(fill_size_choices(Some("vfat")), vfat);
    assert_eq!(fill_size_choices(None), vfat);
    let clusters = [
        "Auto", "4096 bytes", "8192 bytes", "16384 bytes", "32768 bytes", "65536 bytes",
        "131072 bytes", "262144 bytes", "524288 bytes", "1048576 bytes",
    ];
    assert_eq!(fill_size_choices(Some("exfat")), clusters);
    assert_eq!(fill_size_choices(Some("ntfs")), clusters);
    let blocks = ["Auto", "1024 bytes", "2048 bytes", "4096 bytes"];
    assert_eq!(fill_size_choices(Some("ext4")), blocks);
    assert_eq!(fill_size_choices(Some("xfs")), blocks);
    assert_eq!(
        fill_size_choices(Some("btrfs")),
        ["Auto", "4096 bytes", "16384 bytes", "32768 bytes", "65536 bytes"]
    );
    assert_eq!(fill_size_choices(Some("zfs")), ["Auto"]);
}

#[test]
fn size_choices_are_read_back() {
    let expected: [(&str, &[u64]); 4] = [
        ("vfat", &[1, 2, 4, 8, 16, 32, 64, 128]),
        ("ntfs", &[4096, 8192, 16384, 32768, 65536, 131072, 262144, 524288, 1048576]),
        ("xfs", &[1024, 2048, 4096]),
        ("btrfs", &[4096, 16384, 32768, 65536]),
    ];
    for (fs, units) in expected {
        let choices = fill_size_choices(Some(fs));
        assert_eq!(parse_size_choice_label(Some(&choices[0])), None);
        let read: Vec<Option<u64>> =
            choices[1..].iter().map(|c| parse_size_choice_label(Some(c))).collect();
        let units: Vec<Option<u64>> = units.iter().map(|u| Some(*u)).collect();
        assert_eq!(read, units, "{fs}");
    }
}

#[test]
fn captions_of_the_size_list() {
    assert_eq!(size_label_text(None), "Sectors per cluster");
    assert_eq!(size_label_text(Some("vfat")), "Sectors per cluster");
    assert_eq!(size_label_text(Some("exfat")), "Cluster size (bytes)");
    assert_eq!(size_label_text(Some("ntfs")), "Cluster size (bytes)");
    assert_eq!(size_label_text(Some("ext4")), "Block size (bytes)");
    assert_eq!(size_label_text(Some("xfs")), "Block size (bytes)");
    assert_eq!(size_label_text(Some("btrfs")), "Nodesize (bytes)");
    assert_eq!(size_label_text(Some("other")), "Allocation Unit Size");
}

#[test]
fn partition_table_choice() {
    assert_eq!(parse_partition_table_choice(Some("MBR (DOS)")), Some(PartitionTable::Dos));
    assert_eq!(parse_partition_table_choice(Some("GPT (default)")), Some(PartitionTable::Gpt));
    assert_eq!(parse_partition_table_choice(Some("mbr")), Some(PartitionTable::Gpt));
    assert_eq!(parse_partition_table_choice(Some("")), Some(PartitionTable::Gpt));
    assert_eq!(parse_partition_table_choice(None), Some(PartitionTable::Gpt));
}

#[test]
fn list_of_filesystems() {
    assert_eq!(
        fs_choices(&[]),
        FsChoices {
            entries: vec!["(No filesystem tools found)".to_string()],
            selected: Some(0),
            enabled: false,
        }
    );
    assert_eq!(
        fs_choices(&["ntfs", "ext4", "xfs"]),
        FsChoices {
            entries: vec!["ntfs".to_string(), "ext4".to_string(), "xfs".to_string()],
            selected: Some(1),
            enabled: true,
        }
    );
    assert_eq!(fs_choices(&["exfat", "vfat"]).selected, Some(0));
    assert_eq!(fs_choices(&["minix"]).selected, None);
}

#[test]
fn partition_table_is_for_whole_disks() {
    let devs = [device("sdb", false), device("sdb1", true)];
    assert!(table_choice_enabled(&devs, 0));
    assert!(!table_choice_enabled(&devs, 1));
    assert!(table_choice_enabled(&devs, 2));
    assert!(table_choice_enabled(&devs, -1));
    assert!(table_choice_enabled(&[], 0));
}

#[test]
fn pressing_start() {
    let devs = [device("sdb", false), device("sdb1", true)];
    assert_eq!(
        start_clicked(0, &devs, 0),
        StartClick::NoTools {
            notice: "No filesystem formatting tools found. Please install mkfs utilities (e.g., mkfs.vfat, mkfs.ext4).".to_string()
        }
    );
    assert_eq!(start_clicked(3, &devs, -1), StartClick::NoDevice);
    assert_eq!(start_clicked(3, &devs, 2), StartClick::NoDevice);
    assert_eq!(
        start_clicked(3, &devs, 1),
        StartClick::Confirm {
            obj_path: "sdb1".to_string(),
            question: "WARNING: Formatting will erase all data on sdb1. Continue?".to_string(),
        }
    );
}

#[test]
fn only_a_yes_starts_a_format() {
    assert_eq!(ANSWER_YES, 1);
    for answer in [None, Some(0), Some(2), Some(-1)] {
        let d = start_confirmed(answer, "sdb1".to_string(), input(Some("vfat"), "", None, None));
        assert_eq!(d, StartDecision::Abandoned);
    }
}

#[test]
fn confirmed_request_goes_on_the_bus() {
    let d = start_confirmed(
        Some(1),
        "sdb".to_string(),
        input(Some("ext4"), "root", Some("4096 bytes"), Some("MBR (DOS)")),
    );
    assert_eq!(
        d,
        StartDecision::Send(Msg::Start {
            obj_path: "sdb".to_string(),
            opts: FormatOptions {
                fs: "ext4".to_string(),
                label: Some("root".to_string()),
                quick: true,
                cluster_or_block_size: Some(4096),
                partition_table: Some(PartitionTable::Dos),
            },
        })
    );
    let d = start_confirmed(Some(1), "sdb".to_string(), input(None, "", Some("Auto"), None));
    assert_eq!(
        d,
        StartDecision::Send(Msg::Start {
            obj_path: "sdb".to_string(),
            opts: FormatOptions {
                fs: "vfat".to_string(),
                label: None,
                quick: true,
                cluster_or_block_size: None,
                partition_table: Some(PartitionTable::Gpt),
            },
        })
    );
}

#[test]
fn confirmed_request_that_breaks_a_rule() {
    let d = start_confirmed(Some(1), "sdb".to_string(), input(Some("xfs"), "a-label-too-long", None, None));
    assert_eq!(d, StartDecision::Invalid { notice: "Invalid label: xfs: max 12 bytes".to_string() });
    let d = start_confirmed(
        Some(1),
        "sdb".to_string(),
        input(Some("(No filesystem tools found)"), "x", None, None),
    );
    assert_eq!(
        d,
        StartDecision::Invalid {
            notice: "Format failed: Unsupported filesystem: (No filesystem tools found)".to_string()
        }
    );
    let d = start_confirmed(Some(1), "sdb".to_string(), input(Some("ext4"), "", Some("0 bytes"), None));
    assert_eq!(
        d,
        StartDecision::Invalid { notice: "Format failed: allocation unit must be positive".to_string() }
    );
}

#[test]
fn interface_follows_a_job() {
    let mut ui = Ui::build();
    assert_eq!(ui.state(), OrchestratorState::Idle);
    assert_eq!(ui.sync_ui_to_state(), (true, false));
    assert_eq!(ui.progress_value(), 0);
    assert_eq!(ui.status_text(), "");

    let opts = FormatOptions {
        fs: "vfat".to_string(),
        label: None,
        quick: true,
        cluster_or_block_size: None,
        partition_table: None,
    };
    ui.update_progress(ProgressEvent::Percent(40));
    let start = Msg::Start { obj_path: "0".to_string(), opts: opts.clone() };
    assert_eq!(
        ui.handle_msg(start),
        vec![UiAction::Format { obj_path: "0".to_string(), opts }]
    );
    assert_eq!(ui.state(), OrchestratorState::Starting);
    assert_eq!(ui.sync_ui_to_state(), (false, false));
    assert_eq!(ui.progress_value(), 0);
    assert_eq!(ui.status_text(), "Starting...");
    assert!(ui.is_busy());
    assert_eq!(ui.active_job_id(), None);
    assert!(ui.handle_msg(Msg::Cancel).is_empty());

    assert!(ui.handle_msg(Msg::Progress(ProgressEvent::JobStarted("j1".to_string()))).is_empty());
    assert_eq!(ui.state(), formatting("j1"));
    assert_eq!(ui.sync_ui_to_state(), (false, true));
    assert_eq!(ui.active_job_id(), Some("j1".to_string()));

    ui.handle_msg(Msg::Progress(ProgressEvent::Percent(25)));
    assert_eq!(ui.progress_value(), 25);
    ui.handle_msg(Msg::Progress(ProgressEvent::Percent(200)));
    assert_eq!(ui.progress_value(), PROGRESS_MAX);
    ui.handle_msg(Msg::Progress(ProgressEvent::RateBytesPerSec(1500)));
    assert_eq!(ui.status_text(), "1500 B/s");
    ui.handle_msg(Msg::Progress(ProgressEvent::Message("working".to_string())));
    assert_eq!(ui.status_text(), "working");

    assert_eq!(ui.handle_msg(Msg::Cancel), vec![UiAction::CancelJob { job_id: "j1".to_string() }]);
    assert_eq!(ui.state(), formatting("j1"));
    assert_eq!(
        ui.handle_msg(Msg::RequestClose),
        vec![UiAction::Dialog("A format is still running. Cancel it before closing.".to_string())]
    );
    assert_eq!(ui.status_text(), "A format is still running. Cancel it before closing.");

    ui.handle_msg(Msg::Progress(ProgressEvent::Percent(60)));
    ui.handle_msg(Msg::Progress(ProgressEvent::Completed(Ok(()))));
    assert_eq!(ui.state(), OrchestratorState::Idle);
    assert_eq!(ui.progress_value(), 100);
    assert_eq!(ui.status_text(), "Completed");
    assert!(!ui.is_busy());
    assert_eq!(ui.handle_msg(Msg::RequestClose), vec![UiAction::Quit]);
}

#[test]
fn interface_after_a_failure() {
    let mut ui = Ui::build();
    ui.set_state(formatting("j2"));
    ui.update_progress(ProgressEvent::Percent(70));
    ui.update_progress(ProgressEvent::Completed(Err("cancelled".to_string())));
    assert_eq!(ui.state(), OrchestratorState::Idle);
    assert_eq!(ui.progress_value(), 0);
    assert_eq!(ui.status_text(), "Error: cancelled");
}

#[test]
fn interface_shows_status_and_devices() {
    let mut ui = Ui::build();
    assert_eq!(
        ui.handle_msg(Msg::Status("Ready: 0".to_string())),
        vec![UiAction::Dialog("Ready: 0".to_string())]
    );
    assert_eq!(ui.status_text(), "Ready: 0");
    let devs = vec![device("sdb", false)];
    assert_eq!(ui.handle_msg(Msg::Devices(devs.clone())), vec![UiAction::ShowDevices(devs)]);
    assert_eq!(ui.state(), OrchestratorState::Idle);
}

fn start_msg(fs: &str, label: Option<&str>) -> Msg {
    Msg::Start {
        obj_path: "sdb1".to_string(),
        opts: FormatOptions {
            fs: fs.to_string(),
            label: label.map(|l| l.to_string()),
            quick: true,
            cluster_or_block_size: None,
            partition_table: None,
        },
    }
}

#[test]
fn start_while_a_job_runs_is_refused() {
    let mut ui = Ui::build();
    ui.set_state(formatting("j1"));
    ui.update_progress(ProgressEvent::Percent(40));
    ui.update_progress(ProgressEvent::Message("working".to_string()));
    assert!(ui.handle_msg(start_msg("vfat", None)).is_empty());
    assert_eq!(ui.state(), formatting("j1"));
    assert_eq!(ui.progress_value(), 40);
    assert_eq!(ui.status_text(), "working");
    assert_eq!(ui.sync_ui_to_state(), (false, true));
}

#[test]
fn second_start_while_the_first_is_being_started_is_refused() {
    let mut ui = Ui::build();
    assert_eq!(ui.handle_msg(start_msg("vfat", None)).len(), 1);
    assert_eq!(ui.state(), OrchestratorState::Starting);
    ui.update_progress(ProgressEvent::Message("Creating partition table...".to_string()));
    assert!(ui.handle_msg(start_msg("ext4", Some("other"))).is_empty());
    assert_eq!(ui.state(), OrchestratorState::Starting);
    assert_eq!(ui.status_text(), "Creating partition table...");
}

#[test]
fn start_that_breaks_a_rule_is_refused_with_a_word() {
    let mut ui = Ui::build();
    assert_eq!(
        ui.handle_msg(start_msg("vfat", Some("TOO_LONG_LABEL_X"))),
        vec![UiAction::Dialog("Format failed: vfat: max 11 bytes".to_string())]
    );
    assert_eq!(ui.state(), OrchestratorState::Idle);
    assert_eq!(ui.status_text(), "");
    assert_eq!(
        ui.handle_msg(start_msg("zfs", None)),
        vec![UiAction::Dialog("Format failed: Unsupported filesystem: zfs".to_string())]
    );
    assert_eq!(ui.state(), OrchestratorState::Idle);
}

#[test]
fn nothing_reports_the_end_of_a_format_twice() {
    let status = |text: &str| Some(Msg::Status(text.to_string()));
    assert_eq!(format_finished(&FormatEnd::Formatted("sdb1".to_string())), None);
    assert_eq!(
        format_finished(&FormatEnd::Failed("device vanished".to_string())),
        status("Format failed: device vanished")
    );
    assert_eq!(
        format_finished(&FormatEnd::NotStarted(StartError::Busy)),
        status("Format failed: a format is already running")
    );
    assert_eq!(
        format_finished(&FormatEnd::NotStarted(StartError::Backend("denied".to_string()))),
        status("Format failed: denied")
    );
    assert_eq!(
        format_finished(&FormatEnd::NotStarted(StartError::Invalid("xfs: max 12 bytes".to_string()))),
        status("Format failed: xfs: max 12 bytes")
    );
    assert_eq!(
        format_finished(&FormatEnd::NotStarted(StartError::Abandoned)),
        status("Format failed: cancelled")
    );
}

#[test]
fn devices_after_a_format_and_at_the_start() {
    let devs = vec![device("sdb", false)];
    assert_eq!(
        refreshed("sdb1", Ok(devs.clone())),
        vec![Msg::Devices(devs.clone()), Msg::Status("Ready: sdb1".to_string())]
    );
    assert_eq!(
        refreshed("sdb1", Err(ListError("bus is down".to_string()))),
        vec![Msg::Status("Refresh failed: bus is down".to_string())]
    );
    assert_eq!(listed(Ok(devs.clone())), Msg::Devices(devs));
    assert_eq!(
        listed(Err(ListError("bus is down".to_string()))),
        Msg::Status("List error: bus is down".to_string())
    );
}
