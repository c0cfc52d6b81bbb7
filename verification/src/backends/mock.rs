//! A stand-in for the disk service: it lists one device, formats nothing,
//! and reports a job that runs without fault.

use vstd::prelude::*;

use crate::backends::{BlockDevice, BlockDeviceView, JobEvent, JobEventView};
use crate::common::Msg;
use crate::text::same_text;

verus! {

/// How long the stand-in takes to list the devices and to cancel a job, in
/// milliseconds.
pub const MOCK_QUICK_OPERATION_MS: u64 = 100;

/// How long the stand-in lets pass between two reports of progress, in
/// milliseconds.
pub const MOCK_FORMAT_OPERATION_MS: u64 = 1000;

/// The identifier of every job of the stand-in.
pub open spec fn mock_job_text() -> Seq<char> {
    "mock_job_123"@
}

/// The warning that goes on the event bus when the stand-in is made, so
/// that nobody takes it for the real service.
pub open spec fn mock_warning_text() -> Seq<char> {
    "Warning: Using mock backend. UDisks2 unavailable."@
}

/// The one device that the stand-in lists: a partition of 64 GB on a USB
/// stick.
pub open spec fn mock_device() -> BlockDeviceView {
    BlockDeviceView {
        dev_path: "/dev/sdc1"@,
        object_path: "0"@,
        fs_type: Some("vfat"@),
        label: Some("MOCK"@),
        size_bytes: Some(64_000_000_000u64),
        vendor_model: Some("Mock USB"@),
        is_partition: true,
    }
}

/// What the stand-in reports of a job, in order: a quarter, a half, three
/// quarters and the whole of the work, then the end of the job.
pub open spec fn mock_events() -> Seq<JobEventView> {
    seq![
        JobEventView::Percent(25),
        JobEventView::Percent(50),
        JobEventView::Percent(75),
        JobEventView::Percent(100),
        JobEventView::Completed(Ok(())),
    ]
}

/// One report of the stand-in, and how long it waits before it makes it.
#[derive(Debug, PartialEq, Eq)]
pub struct MockStep {
    pub delay_ms: u64,
    pub event: JobEvent,
}

/// The stand-in for the disk service.
#[derive(Debug)]
pub struct MockBackend {
    step_delay_ms: u64,
}

impl MockBackend {
    /// A stand-in that waits `MOCK_FORMAT_OPERATION_MS` between its
    /// reports, and the one warning that its maker puts on the event bus.
    pub fn new() -> (r: (MockBackend, Msg))
        ensures
            r.0.step_delay() == MOCK_FORMAT_OPERATION_MS,
            r.1 matches Msg::Status(line) && line@ == mock_warning_text(),
    {
        MockBackend::with_delay(MOCK_FORMAT_OPERATION_MS)
    }

    /// A stand-in that waits `step_delay_ms` between its reports, and the
    /// one warning that its maker puts on the event bus.
    pub fn with_delay(step_delay_ms: u64) -> (r: (MockBackend, Msg))
        ensures
            r.0.step_delay() == step_delay_ms,
            r.1 matches Msg::Status(line) && line@ == mock_warning_text(),
    {
        (
            MockBackend { step_delay_ms },
            Msg::Status(String::from_str("Warning: Using mock backend. UDisks2 unavailable.")),
        )
    }

    /// How long the stand-in waits between its reports, in milliseconds.
    pub closed spec fn step_delay(&self) -> u64 {
        self.step_delay_ms
    }

    /// The devices that may be formatted: always the same one.
    pub fn list_block_devices(&self) -> (r: Vec<BlockDevice>)
        ensures
            r@.len() == 1,
            r@[0]@ == mock_device(),
    {
        let mut r: Vec<BlockDevice> = Vec::new();
        r.push(
            BlockDevice {
                dev_path: String::from_str("/dev/sdc1"),
                object_path: String::from_str("0"),
                fs_type: Some(String::from_str("vfat")),
                label: Some(String::from_str("MOCK")),
                size_bytes: Some(64_000_000_000),
                vendor_model: Some(String::from_str("Mock USB")),
                is_partition: true,
            },
        );
        r
    }

    /// Whether `obj_path` names a partition: the device that the stand-in
    /// lists is one, and everything else is taken for a whole disk.
    pub fn is_partition(&self, obj_path: &str) -> (r: bool)
        ensures
            r == (obj_path@ == mock_device().object_path),
    {
        same_text(obj_path, "0")
    }

    /// The partition that the stand-in makes on a whole disk: the disk's
    /// name with `p1` after it.
    pub fn new_partition(&self, obj_path: &str) -> (r: String)
        ensures
            r@ == obj_path@ + "p1"@,
    {
        let mut r = String::from_str(obj_path);
        r.append("p1");
        r
    }

    /// The identifier of the job that the stand-in starts.
    pub fn job_id(&self) -> (r: String)
        ensures
            r@ == mock_job_text(),
    {
        String::from_str("mock_job_123")
    }

    /// Takes a request to cancel a job, and does nothing about it: the job
    /// runs to its end as if it had not been asked.
    pub fn cancel(&self, job_id: &str) -> (r: Result<(), String>)
        ensures
            r is Ok,
    {
        Ok(())
    }

    /// What the stand-in reports of a job, each report with the time to
    /// wait before it. The end of the job follows the last report of
    /// progress at once.
    pub fn format(&self) -> (r: Vec<MockStep>)
        ensures
            r@.len() == mock_events().len(),
            forall|i: int| 0 <= i < r@.len() ==> (#[trigger] r@[i]).event@ == mock_events()[i],
            forall|i: int|
                0 <= i < r@.len() ==> (#[trigger] r@[i]).delay_ms == if i < 4 {
                    self.step_delay()
                } else {
                    0
                },
    {
        let mut r: Vec<MockStep> = Vec::new();
        r.push(MockStep { delay_ms: self.step_delay_ms, event: JobEvent::Percent(25) });
        r.push(MockStep { delay_ms: self.step_delay_ms, event: JobEvent::Percent(50) });
        r.push(MockStep { delay_ms: self.step_delay_ms, event: JobEvent::Percent(75) });
        r.push(MockStep { delay_ms: self.step_delay_ms, event: JobEvent::Percent(100) });
        r.push(MockStep { delay_ms: 0, event: JobEvent::Completed(Ok(())) });
        r
    }
}

} // verus!
