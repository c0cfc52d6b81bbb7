use crossbeam_channel::{bounded, unbounded};
use diskfmt::backends::mock::{
    MockBackend, MockStep, MOCK_FORMAT_OPERATION_MS, MOCK_QUICK_OPERATION_MS,
};
use diskfmt::backends::udisks::{list_block_devices, DeviceInfo};
use diskfmt::backends::{BlockDevice, JobEvent, ProgressEvent};
use diskfmt::common::{
    answer_of, deliver, emit, make_backend, settle, BackendKind, ConsoleReporter, Delivery, Msg,
    Offer, Outbox, Posted,
};
use diskfmt::utils::{default_fs, detect_supported_fs, device_display, mkfs_candidates, mkfs_present};

fn info(path: &str, id: &str, removable: bool, optical: bool) -> DeviceInfo {
    DeviceInfo {
        dev_path: path.to_string(),
        object_path: id.to_string(),
        is_mounted: false,
        is_partition: path.ends_with('1'),
        size_bytes: Some(1000),
        fs_type: Some("vfat".to_string()),
        label: None,
        is_removable: removable,
        is_optical: optical,
        vendor_model: None,
    }
}

fn completed() -> Msg {
    Msg::Progress(ProgressEvent::Completed(Ok(())))
}

fn percent(p: u8) -> Msg {
    Msg::Progress(ProgressEvent::Percent(p))
}

#[test]
fn mock_lists_one_fixed_device() {
    let (backend, _) = MockBackend::new();
    let devs = backend.list_block_devices();
    assert_eq!(devs.len(), 1);
    let d = &devs[0];
    assert_eq!(d.dev_path, "/dev/sdc1");
    assert_eq!(d.object_path, "0");
    assert_eq!(d.fs_type.as_deref(), Some("vfat"));
    assert_eq!(d.label.as_deref(), Some("MOCK"));
    assert_eq!(d.size_bytes, Some(64_000_000_000));
    assert_eq!(d.vendor_model.as_deref(), Some("Mock USB"));
    assert!(d.is_partition);
}

#[test]
fn mock_comes_with_its_warning() {
    let warning = Msg::Status("Warning: Using mock backend. UDisks2 unavailable.".to_string());
    let (_, said) = MockBackend::new();
    assert_eq!(said, warning);
    let (_, said) = MockBackend::with_delay(5);
    assert_eq!(said, warning);
}

#[test]
fn mock_job_script() {
    let (backend, _) = MockBackend::new();
    assert_eq!(backend.job_id(), "mock_job_123");
    assert_eq!(MOCK_FORMAT_OPERATION_MS, 1000);
    assert_eq!(MOCK_QUICK_OPERATION_MS, 100);
    assert_eq!(
        backend.format(),
        vec![
            MockStep { delay_ms: 1000, event: JobEvent::Percent(25) },
            MockStep { delay_ms: 1000, event: JobEvent::Percent(50) },
            MockStep { delay_ms: 1000, event: JobEvent::Percent(75) },
            MockStep { delay_ms: 1000, event: JobEvent::Percent(100) },
            MockStep { delay_ms: 0, event: JobEvent::Completed(Ok(())) },
        ]
    );
    let (quick, _) = MockBackend::with_delay(0);
    assert!(quick.format().iter().all(|step| step.delay_ms == 0));
}

#[test]
fn mock_partitions_and_disks() {
    let (backend, _) = MockBackend::with_delay(0);
    assert!(backend.is_partition("0"));
    assert!(!backend.is_partition("disk-1"));
    assert!(!backend.is_partition(""));
    assert_eq!(backend.new_partition("disk-1"), "disk-1p1");
    assert_eq!(backend.cancel("mock_job_123"), Ok(()));
}

#[test]
fn devices_are_equal_by_identifier() {
    let (backend, _) = MockBackend::with_delay(0);
    let a = backend.list_block_devices().remove(0);
    let mut b = a.clone();
    b.label = Some("OTHER".to_string());
    b.dev_path = "/dev/sdz9".to_string();
    assert_eq!(a, b);
    b.object_path = "1".to_string();
    assert_ne!(a, b);
}

#[test]
fn only_removable_devices_that_are_no_optical_drives_are_listed() {
    let devs = vec![
        info("/dev/sda", "a", false, false),
        info("/dev/sdb", "b", true, false),
        info("/dev/sr0", "c", true, false),
        info("/dev/sdc1", "d", true, true),
        info("/dev/sdd1", "e", true, false),
        info("/dev/sr", "f", true, false),
        info("/dev/mmcblk0", "g", true, false),
    ];
    let out = list_block_devices(&devs);
    let ids: Vec<&str> = out.iter().map(|d| d.object_path.as_str()).collect();
    assert_eq!(ids, vec!["b", "e", "g"]);
    assert_eq!(out[1].dev_path, "/dev/sdd1");
    assert!(out[1].is_partition);
    assert!(!out[0].is_partition);
    assert_eq!(out[0].size_bytes, Some(1000));
    assert_eq!(out[0].fs_type.as_deref(), Some("vfat"));
    assert!(list_block_devices(&[]).is_empty());
}

#[test]
fn device_line() {
    let dev = BlockDevice {
        dev_path: "/dev/sdc1".to_string(),
        object_path: "0".to_string(),
        fs_type: Some("vfat".to_string()),
        label: Some("MOCK".to_string()),
        size_bytes: Some(64_000_000_000),
        vendor_model: Some("Mock USB".to_string()),
        is_partition: true,
    };
    assert_eq!(
        device_display(&dev, Some("64.0 GB")),
        "/dev/sdc1 (Partition, 64.0 GB, Mock USB, vfat, \"MOCK\")"
    );
    assert_eq!(device_display(&dev, None), "/dev/sdc1 (Partition, Mock USB, vfat, \"MOCK\")");
}

#[test]
fn device_line_leaves_out_what_is_unknown() {
    let dev = BlockDevice {
        dev_path: String::new(),
        object_path: "/org/freedesktop/UDisks2/block_devices/sdb".to_string(),
        fs_type: Some(String::new()),
        label: Some(String::new()),
        size_bytes: None,
        vendor_model: None,
        is_partition: false,
    };
    assert_eq!(device_display(&dev, None), "/org/freedesktop/UDisks2/block_devices/sdb (Disk)");
}

#[test]
fn preferred_filesystem() {
    assert_eq!(default_fs(&["btrfs", "xfs", "ntfs", "ext4", "vfat", "exfat"]), Some("exfat"));
    assert_eq!(default_fs(&["btrfs", "xfs", "ntfs", "ext4", "vfat"]), Some("vfat"));
    assert_eq!(default_fs(&["btrfs", "xfs", "ntfs", "ext4"]), Some("ext4"));
    assert_eq!(default_fs(&["btrfs", "xfs", "ntfs"]), Some("ntfs"));
    assert_eq!(default_fs(&["btrfs", "xfs"]), Some("xfs"));
    assert_eq!(default_fs(&["btrfs"]), Some("btrfs"));
    assert_eq!(default_fs(&["zfs"]), None);
    assert_eq!(default_fs(&[]), None);
}

#[test]
fn programs_that_make_filesystems() {
    assert_eq!(mkfs_candidates("vfat"), vec!["mkfs.vfat"]);
    assert_eq!(mkfs_candidates("exfat"), vec!["mkfs.exfat"]);
    assert_eq!(mkfs_candidates("ntfs"), vec!["mkfs.ntfs", "mkntfs"]);
    assert_eq!(mkfs_candidates("ext4"), vec!["mkfs.ext4", "mke2fs"]);
    assert_eq!(mkfs_candidates("xfs"), vec!["mkfs.xfs"]);
    assert_eq!(mkfs_candidates("btrfs"), vec!["mkfs.btrfs"]);
    assert!(mkfs_candidates("zfs").is_empty());
}

#[test]
fn supported_filesystems_follow_the_installed_programs() {
    assert!(mkfs_present("ntfs", &["mkntfs"]));
    assert!(mkfs_present("ntfs", &["ls", "mkfs.ntfs"]));
    assert!(!mkfs_present("ntfs", &["mkfs.vfat"]));
    assert!(!mkfs_present("zfs", &["mkfs.zfs", "zfs"]));
    assert!(!mkfs_present("vfat", &[]));
    assert_eq!(
        detect_supported_fs(&["mke2fs", "mkfs.btrfs", "mkfs.exfat", "sh"]),
        vec!["exfat", "ext4", "btrfs"]
    );
    let all = [
        "mkfs.vfat", "mkfs.exfat", "mkfs.ntfs", "mkfs.ext4", "mkfs.xfs", "mkfs.btrfs",
    ];
    assert_eq!(detect_supported_fs(&all), vec!["exfat", "vfat", "ntfs", "ext4", "xfs", "btrfs"]);
    assert!(detect_supported_fs(&[]).is_empty());
}

#[test]
fn emit_puts_a_message_on_the_bus() {
    let (tx, rx) = unbounded::<Msg>();
    assert_eq!(emit(&tx, percent(25)), Delivery::Sent);
    assert_eq!(emit(&tx, Msg::Status("hello".to_string())), Delivery::Sent);
    assert_eq!(rx.try_recv(), Ok(percent(25)));
    assert_eq!(rx.try_recv(), Ok(Msg::Status("hello".to_string())));
    assert!(rx.try_recv().is_err());
}

#[test]
fn full_bus_drops_all_but_the_completion() {
    let (tx, rx) = bounded::<Msg>(1);
    assert_eq!(emit(&tx, percent(25)), Delivery::Sent);
    assert_eq!(emit(&tx, percent(50)), Delivery::Dropped);
    assert_eq!(emit(&tx, Msg::Status("lost".to_string())), Delivery::Dropped);
    assert_eq!(emit(&tx, Msg::Cancel), Delivery::Dropped);
    assert_eq!(emit(&tx, completed()), Delivery::Held(completed()));
    let failed = Msg::Progress(ProgressEvent::Completed(Err("boom".to_string())));
    assert_eq!(emit(&tx, failed.clone()), Delivery::Held(failed));
    assert_eq!(rx.try_recv(), Ok(percent(25)));
    assert_eq!(emit(&tx, completed()), Delivery::Sent);
    assert_eq!(rx.try_recv(), Ok(completed()));
    assert!(rx.try_recv().is_err());
}

#[test]
fn closed_bus_takes_nothing() {
    let (tx, rx) = bounded::<Msg>(1);
    drop(rx);
    assert_eq!(emit(&tx, percent(1)), Delivery::Closed);
    assert_eq!(emit(&tx, completed()), Delivery::Closed);
    assert_eq!(deliver(&tx, completed()), Delivery::Closed);
}

#[test]
fn deliver_sends_where_there_is_room() {
    let (tx, rx) = bounded::<Msg>(2);
    assert_eq!(deliver(&tx, percent(10)), Delivery::Sent);
    assert_eq!(deliver(&tx, completed()), Delivery::Sent);
    assert_eq!(deliver(&tx, percent(20)), Delivery::Dropped);
    assert_eq!(rx.try_recv(), Ok(percent(10)));
    assert_eq!(rx.try_recv(), Ok(completed()));
}

#[test]
fn deliver_waits_for_room_with_a_completion() {
    let rt = tokio::runtime::Builder::new_multi_thread().worker_threads(1).build().unwrap();
    let (tx, rx) = bounded::<Msg>(1);
    assert_eq!(emit(&tx, percent(10)), Delivery::Sent);
    // The reader lets the bus stay full for a while before it makes room.
    let (gate, closed_gate) = bounded::<()>(0);
    let reader = rt.spawn_blocking(move || {
        let _ = closed_gate.recv_timeout(std::time::Duration::from_millis(200));
        let first = rx.recv();
        let second = rx.recv();
        (first, second)
    });
    assert_eq!(deliver(&tx, completed()), Delivery::Sent);
    drop(gate);
    let (first, second) = rt.block_on(reader).unwrap();
    assert_eq!(first, Ok(percent(10)));
    assert_eq!(second, Ok(completed()));
}

#[test]
fn settle_decides_by_the_answer_of_the_bus() {
    assert_eq!(settle(Offer::Accepted), Delivery::Sent);
    assert_eq!(settle(Offer::Full(percent(3))), Delivery::Dropped);
    assert_eq!(settle(Offer::Full(Msg::RequestClose)), Delivery::Dropped);
    assert_eq!(settle(Offer::Full(completed())), Delivery::Held(completed()));
    assert_eq!(settle(Offer::Disconnected(completed())), Delivery::Closed);
    assert_eq!(settle(Offer::Disconnected(percent(3))), Delivery::Closed);
    assert!(completed().reports_completion());
    assert!(!percent(100).reports_completion());
}

#[test]
fn backend_choice() {
    let warning = Msg::Status("Warning: Using mock backend. UDisks2 unavailable.".to_string());
    for connect_error in [None, Some("ignored")] {
        let choice = make_backend(true, connect_error);
        assert_eq!(choice.kind, BackendKind::Mock);
        assert!(choice.stand_in.is_some());
        assert!(choice.warnings.is_empty());
        assert_eq!(choice.bus, vec![warning.clone()]);
    }
    let choice = make_backend(false, None);
    assert_eq!(choice.kind, BackendKind::Udisks);
    assert!(choice.stand_in.is_none());
    assert!(choice.warnings.is_empty());
    assert!(choice.bus.is_empty());
}

#[test]
fn fallback_to_the_stand_in_puts_one_warning_on_the_bus() {
    let choice = make_backend(false, Some("no system bus"));
    assert_eq!(choice.kind, BackendKind::Mock);
    assert_eq!(
        choice.warnings,
        vec![
            "Warning: Failed to connect to UDisks2: no system bus".to_string(),
            "Falling back to mock backend (no actual disk operations will be performed)"
                .to_string(),
        ]
    );
    assert_eq!(
        choice.bus,
        vec![Msg::Status("Warning: Using mock backend. UDisks2 unavailable.".to_string())]
    );
    let stand_in = choice.stand_in.unwrap();
    assert_eq!(stand_in.list_block_devices().len(), 1);
    assert_eq!(stand_in.format().len(), 5);
    let (tx, rx) = unbounded::<Msg>();
    for msg in choice.bus {
        assert_eq!(emit(&tx, msg), Delivery::Sent);
    }
    assert_eq!(rx.try_iter().count(), 1);
}

#[test]
fn outbox_steps_on_the_answers_of_the_bus() {
    let (tx, _rx) = bounded::<Msg>(1);
    let mut outbox = Outbox::new();
    assert_eq!(outbox.oldest(), None);
    assert!(!outbox.took(Offer::Accepted));
    assert_eq!(outbox.put(Delivery::Held(percent(5))), Posted::Dropped);
    assert_eq!(outbox.put(Delivery::Sent), Posted::Sent);
    assert_eq!(outbox.put(Delivery::Dropped), Posted::Dropped);
    assert_eq!(outbox.pending(), 0);
    let failed = || Msg::Progress(ProgressEvent::Completed(Err("boom".to_string())));
    assert_eq!(outbox.put(Delivery::Held(completed())), Posted::Waiting);
    assert_eq!(outbox.put(Delivery::Held(failed())), Posted::Waiting);
    assert_eq!(outbox.pending(), 2);
    assert_eq!(outbox.oldest(), Some(completed()));
    assert!(!outbox.took(Offer::Full(completed())));
    assert_eq!(outbox.pending(), 2);
    assert!(outbox.took(Offer::Accepted));
    assert_eq!(outbox.pending(), 1);
    assert_eq!(outbox.oldest(), Some(failed()));
    assert_eq!(outbox.put(Delivery::Held(completed())), Posted::Waiting);
    assert!(!outbox.took(Offer::Disconnected(failed())));
    assert_eq!(outbox.pending(), 0);
    assert_eq!(outbox.put(Delivery::Held(completed())), Posted::Waiting);
    assert_eq!(outbox.put(Delivery::Closed), Posted::Closed);
    assert_eq!(outbox.pending(), 0);
    assert_eq!(outbox.flush(&tx), Posted::Sent);
    assert_eq!(answer_of(Ok(())), Offer::Accepted);
    assert_eq!(answer_of(Err(percent(1))), Offer::Disconnected(percent(1)));
}

#[test]
fn console_lines() {
    let mut reporter = ConsoleReporter;
    assert_eq!(reporter.status("ready"), "ready");
    assert_eq!(reporter.progress(&ProgressEvent::JobStarted("j7".to_string())), "Job j7 started");
    assert_eq!(reporter.progress(&ProgressEvent::Percent(0)), "Progress: 0%");
    assert_eq!(reporter.progress(&ProgressEvent::Percent(25)), "Progress: 25%");
    assert_eq!(reporter.progress(&ProgressEvent::Percent(100)), "Progress: 100%");
    assert_eq!(
        reporter.progress(&ProgressEvent::RateBytesPerSec(1_234_567)),
        "Rate: 1234567 B/s"
    );
    assert_eq!(
        reporter.progress(&ProgressEvent::RateBytesPerSec(u64::MAX)),
        "Rate: 18446744073709551615 B/s"
    );
    assert_eq!(reporter.progress(&ProgressEvent::Message("hi".to_string())), "hi");
    assert_eq!(reporter.progress(&ProgressEvent::Completed(Ok(()))), "Completed");
    assert_eq!(
        reporter.progress(&ProgressEvent::Completed(Err("bad".to_string()))),
        "Error: bad"
    );
}

#[test]
fn console_stops_at_the_completion() {
    let mut reporter = ConsoleReporter;
    assert_eq!(reporter.handle(&percent(5)), (Some("Progress: 5%".to_string()), false));
    assert_eq!(reporter.handle(&Msg::Status("s".to_string())), (Some("s".to_string()), false));
    assert_eq!(reporter.handle(&Msg::Cancel), (None, false));
    assert_eq!(reporter.handle(&Msg::RequestClose), (None, false));
    assert_eq!(reporter.handle(&completed()), (Some("Completed".to_string()), true));
}

#[test]
fn outbox_sends_while_there_is_room() {
    let (tx, rx) = unbounded::<Msg>();
    let mut outbox = Outbox::new();
    assert_eq!(outbox.pending(), 0);
    assert_eq!(outbox.emit(&tx, percent(25)), Posted::Sent);
    assert_eq!(outbox.emit(&tx, completed()), Posted::Sent);
    assert_eq!(outbox.pending(), 0);
    assert_eq!(rx.try_recv(), Ok(percent(25)));
    assert_eq!(rx.try_recv(), Ok(completed()));
}

#[test]
fn outbox_holds_the_completion_until_there_is_room() {
    let (tx, rx) = bounded::<Msg>(1);
    let mut outbox = Outbox::new();
    assert_eq!(outbox.emit(&tx, percent(25)), Posted::Sent);
    assert_eq!(outbox.emit(&tx, percent(50)), Posted::Dropped);
    assert_eq!(outbox.emit(&tx, completed()), Posted::Waiting);
    assert_eq!(outbox.pending(), 1);
    // Nothing overtakes the completion that waits.
    assert_eq!(outbox.emit(&tx, percent(75)), Posted::Dropped);
    assert_eq!(outbox.pending(), 1);
    assert_eq!(rx.try_recv(), Ok(percent(25)));
    assert!(rx.try_recv().is_err());
    // With room on the bus the completion goes first, and fills the bus again.
    assert_eq!(outbox.emit(&tx, Msg::Status("next".to_string())), Posted::Dropped);
    assert_eq!(outbox.pending(), 0);
    assert_eq!(rx.try_recv(), Ok(completed()));
    assert_eq!(outbox.emit(&tx, percent(10)), Posted::Sent);
    assert_eq!(rx.try_recv(), Ok(percent(10)));
}

#[test]
fn outbox_keeps_the_order_of_what_waits() {
    let failed = || Msg::Progress(ProgressEvent::Completed(Err("boom".to_string())));
    let (tx, rx) = bounded::<Msg>(1);
    let mut outbox = Outbox::new();
    assert_eq!(outbox.emit(&tx, percent(1)), Posted::Sent);
    assert_eq!(outbox.emit(&tx, completed()), Posted::Waiting);
    assert_eq!(outbox.emit(&tx, failed()), Posted::Waiting);
    assert_eq!(outbox.pending(), 2);
    assert_eq!(rx.try_recv(), Ok(percent(1)));
    assert_eq!(outbox.emit(&tx, percent(2)), Posted::Dropped);
    assert_eq!(outbox.pending(), 1);
    assert_eq!(rx.try_recv(), Ok(completed()));
    assert_eq!(outbox.emit(&tx, failed()), Posted::Waiting);
    assert_eq!(outbox.pending(), 1);
    assert_eq!(rx.try_recv(), Ok(failed()));
    assert_eq!(outbox.emit(&tx, percent(3)), Posted::Dropped);
    assert_eq!(outbox.pending(), 0);
    assert_eq!(rx.try_recv(), Ok(failed()));
    assert!(rx.try_recv().is_err());
}

#[test]
fn outbox_gives_up_when_nobody_listens() {
    let (tx, rx) = bounded::<Msg>(1);
    let mut outbox = Outbox::new();
    assert_eq!(outbox.emit(&tx, percent(1)), Posted::Sent);
    assert_eq!(outbox.emit(&tx, completed()), Posted::Waiting);
    drop(rx);
    assert_eq!(outbox.emit(&tx, percent(2)), Posted::Closed);
    assert_eq!(outbox.pending(), 0);
    assert_eq!(outbox.emit(&tx, completed()), Posted::Closed);
    assert_eq!(outbox.pending(), 0);
}

#[test]
fn outbox_flushes_what_waits() {
    let rt = tokio::runtime::Builder::new_multi_thread().worker_threads(1).build().unwrap();
    let (tx, rx) = bounded::<Msg>(1);
    let mut outbox = Outbox::new();
    assert_eq!(outbox.flush(&tx), Posted::Sent);
    assert_eq!(outbox.emit(&tx, percent(1)), Posted::Sent);
    assert_eq!(outbox.emit(&tx, completed()), Posted::Waiting);
    let (gate, closed_gate) = bounded::<()>(0);
    let reader = rt.spawn_blocking(move || {
        let _ = closed_gate.recv_timeout(std::time::Duration::from_millis(200));
        (rx.recv(), rx.recv())
    });
    assert_eq!(outbox.flush(&tx), Posted::Sent);
    assert_eq!(outbox.pending(), 0);
    drop(gate);
    let (first, second) = rt.block_on(reader).unwrap();
    assert_eq!(first, Ok(percent(1)));
    assert_eq!(second, Ok(completed()));
}

#[test]
fn outbox_flushes_into_a_closed_bus() {
    let (tx, rx) = bounded::<Msg>(1);
    let mut outbox = Outbox::new();
    assert_eq!(outbox.emit(&tx, percent(1)), Posted::Sent);
    assert_eq!(outbox.emit(&tx, completed()), Posted::Waiting);
    drop(rx);
    assert_eq!(outbox.flush(&tx), Posted::Closed);
    assert_eq!(outbox.pending(), 0);
}
