//! The data that travels between a disk service, the format job and its
//! observers.

use vstd::prelude::*;

use crate::text::same_text;

pub mod mock;
pub mod udisks;

verus! {

/// The text of an optional string.
pub open spec fn opt_text(s: Option<String>) -> Option<Seq<char>> {
    match s {
        Some(t) => Some(t@),
        None => None,
    }
}

/// The filesystems that a device can be formatted with.
#[derive(Clone, Copy, Debug, PartialEq, Eq, Structural)]
pub enum FilesystemKind {
    Vfat,
    Exfat,
    Ntfs,
    Ext4,
    Xfs,
    Btrfs,
}

/// The name by which a filesystem is requested.
pub open spec fn fs_name_text(kind: FilesystemKind) -> Seq<char> {
    match kind {
        FilesystemKind::Vfat => "vfat"@,
        FilesystemKind::Exfat => "exfat"@,
        FilesystemKind::Ntfs => "ntfs"@,
        FilesystemKind::Ext4 => "ext4"@,
        FilesystemKind::Xfs => "xfs"@,
        FilesystemKind::Btrfs => "btrfs"@,
    }
}

/// The filesystem that `name` requests, if it names one.
pub open spec fn fs_kind(name: Seq<char>) -> Option<FilesystemKind> {
    if name == "vfat"@ {
        Some(FilesystemKind::Vfat)
    } else if name == "exfat"@ {
        Some(FilesystemKind::Exfat)
    } else if name == "ntfs"@ {
        Some(FilesystemKind::Ntfs)
    } else if name == "ext4"@ {
        Some(FilesystemKind::Ext4)
    } else if name == "xfs"@ {
        Some(FilesystemKind::Xfs)
    } else if name == "btrfs"@ {
        Some(FilesystemKind::Btrfs)
    } else {
        None
    }
}

impl FilesystemKind {
    /// Reads a filesystem name. Names are matched exactly, in lower case.
    pub fn parse(name: &str) -> (r: Option<FilesystemKind>)
        ensures
            r == fs_kind(name@),
    {
        if same_text(name, "vfat") {
            Some(FilesystemKind::Vfat)
        } else if same_text(name, "exfat") {
            Some(FilesystemKind::Exfat)
        } else if same_text(name, "ntfs") {
            Some(FilesystemKind::Ntfs)
        } else if same_text(name, "ext4") {
            Some(FilesystemKind::Ext4)
        } else if same_text(name, "xfs") {
            Some(FilesystemKind::Xfs)
        } else if same_text(name, "btrfs") {
            Some(FilesystemKind::Btrfs)
        } else {
            None
        }
    }

    /// The name of this filesystem.
    pub fn name(self) -> (r: &'static str)
        ensures
            r@ == fs_name_text(self),
    {
        match self {
            FilesystemKind::Vfat => "vfat",
            FilesystemKind::Exfat => "exfat",
            FilesystemKind::Ntfs => "ntfs",
            FilesystemKind::Ext4 => "ext4",
            FilesystemKind::Xfs => "xfs",
            FilesystemKind::Btrfs => "btrfs",
        }
    }
}

/// Every filesystem is found again by its name.
pub proof fn lemma_fs_name_round_trip(kind: FilesystemKind)
    ensures
        fs_kind(fs_name_text(kind)) == Some(kind),
{
    reveal_strlit("vfat");
    reveal_strlit("exfat");
    reveal_strlit("ntfs");
    reveal_strlit("ext4");
    reveal_strlit("xfs");
    reveal_strlit("btrfs");
    assert("exfat"@[2] != "ext4"@[2]);
    assert("ntfs"@[0] != "btrfs"@[0]);
    assert("vfat"@[0] != "ext4"@[0]);
}

/// Partition table scheme written to a whole disk before its first
/// partition is formatted.
#[derive(Clone, Copy, Debug, PartialEq, Eq, Structural)]
pub enum PartitionTable {
    Gpt,
    Dos,
}

/// A snapshot of one device that could be formatted.
#[derive(Debug)]
pub struct BlockDevice {
    pub dev_path: String,
    pub object_path: String,
    pub fs_type: Option<String>,
    pub label: Option<String>,
    pub size_bytes: Option<u64>,
    pub vendor_model: Option<String>,
    pub is_partition: bool,
}

/// What a `BlockDevice` holds, as plain values.
pub struct BlockDeviceView {
    pub dev_path: Seq<char>,
    pub object_path: Seq<char>,
    pub fs_type: Option<Seq<char>>,
    pub label: Option<Seq<char>>,
    pub size_bytes: Option<u64>,
    pub vendor_model: Option<Seq<char>>,
    pub is_partition: bool,
}

impl View for BlockDevice {
    type V = BlockDeviceView;

    open spec fn view(&self) -> BlockDeviceView {
        BlockDeviceView {
            dev_path: self.dev_path@,
            object_path: self.object_path@,
            fs_type: opt_text(self.fs_type),
            label: opt_text(self.label),
            size_bytes: self.size_bytes,
            vendor_model: opt_text(self.vendor_model),
            is_partition: self.is_partition,
        }
    }
}

impl Clone for BlockDevice {
    fn clone(&self) -> (r: BlockDevice)
        ensures
            r == *self,
    {
        BlockDevice {
            dev_path: self.dev_path.clone(),
            object_path: self.object_path.clone(),
            fs_type: self.fs_type.clone(),
            label: self.label.clone(),
            size_bytes: self.size_bytes,
            vendor_model: self.vendor_model.clone(),
            is_partition: self.is_partition,
        }
    }
}

/// Two snapshots are equal when they name the same device: equality goes
/// by the service's identifier alone.
impl PartialEq for BlockDevice {
    fn eq(&self, other: &BlockDevice) -> (r: bool) {
        self.object_path == other.object_path
    }
}

impl vstd::std_specs::cmp::PartialEqSpecImpl for BlockDevice {
    open spec fn obeys_eq_spec() -> bool {
        true
    }

    open spec fn eq_spec(&self, other: &BlockDevice) -> bool {
        self.object_path@ == other.object_path@
    }
}

/// A request to format a device.
#[derive(Debug, PartialEq, Eq)]
pub struct FormatOptions {
    pub fs: String,
    pub label: Option<String>,
    pub quick: bool,
    pub cluster_or_block_size: Option<u64>,
    pub partition_table: Option<PartitionTable>,
}

impl Clone for FormatOptions {
    fn clone(&self) -> (r: FormatOptions)
        ensures
            r == *self,
    {
        FormatOptions {
            fs: self.fs.clone(),
            label: self.label.clone(),
            quick: self.quick,
            cluster_or_block_size: self.cluster_or_block_size,
            partition_table: self.partition_table,
        }
    }
}

/// What a `FormatOptions` holds, as plain values.
pub struct FormatOptionsView {
    pub fs: Seq<char>,
    pub label: Option<Seq<char>>,
    pub quick: bool,
    pub cluster_or_block_size: Option<u64>,
    pub partition_table: Option<PartitionTable>,
}

impl View for FormatOptions {
    type V = FormatOptionsView;

    open spec fn view(&self) -> FormatOptionsView {
        FormatOptionsView {
            fs: self.fs@,
            label: opt_text(self.label),
            quick: self.quick,
            cluster_or_block_size: self.cluster_or_block_size,
            partition_table: self.partition_table,
        }
    }
}

/// How a job ended: well, or with the reason why not.
pub open spec fn outcome_text(r: Result<(), String>) -> Result<(), Seq<char>> {
    match r {
        Ok(()) => Ok(()),
        Err(e) => Err(e@),
    }
}

/// A copy of a job's outcome.
pub fn clone_outcome(r: &Result<(), String>) -> (c: Result<(), String>)
    ensures
        c == *r,
{
    match r {
        Ok(unit) => Ok(*unit),
        Err(e) => Err(e.clone()),
    }
}

/// What an observer is told about a format job.
#[derive(Debug, PartialEq, Eq)]
pub enum ProgressEvent {
    JobStarted(String),
    Percent(u8),
    RateBytesPerSec(u64),
    Message(String),
    Completed(Result<(), String>),
}

impl Clone for ProgressEvent {
    fn clone(&self) -> (r: ProgressEvent)
        ensures
            r == *self,
    {
        match self {
            ProgressEvent::JobStarted(id) => ProgressEvent::JobStarted(id.clone()),
            ProgressEvent::Percent(p) => ProgressEvent::Percent(*p),
            ProgressEvent::RateBytesPerSec(r) => ProgressEvent::RateBytesPerSec(*r),
            ProgressEvent::Message(m) => ProgressEvent::Message(m.clone()),
            ProgressEvent::Completed(r) => ProgressEvent::Completed(clone_outcome(r)),
        }
    }
}

/// What a `ProgressEvent` holds, as plain values.
pub enum ProgressEventView {
    JobStarted(Seq<char>),
    Percent(u8),
    RateBytesPerSec(u64),
    Message(Seq<char>),
    Completed(Result<(), Seq<char>>),
}

impl View for ProgressEvent {
    type V = ProgressEventView;

    open spec fn view(&self) -> ProgressEventView {
        match *self {
            ProgressEvent::JobStarted(id) => ProgressEventView::JobStarted(id@),
            ProgressEvent::Percent(p) => ProgressEventView::Percent(p),
            ProgressEvent::RateBytesPerSec(r) => ProgressEventView::RateBytesPerSec(r),
            ProgressEvent::Message(m) => ProgressEventView::Message(m@),
            ProgressEvent::Completed(r) => ProgressEventView::Completed(outcome_text(r)),
        }
    }
}

/// What a disk service reports about a running job. A percentage comes as
/// the service gave it, rounded to a whole number, and may lie outside of
/// 0 to 100.
#[derive(Debug, PartialEq, Eq)]
pub enum JobEvent {
    Percent(i64),
    RateBytesPerSec(u64),
    Completed(Result<(), String>),
}

impl Clone for JobEvent {
    fn clone(&self) -> (r: JobEvent)
        ensures
            r == *self,
    {
        match self {
            JobEvent::Percent(p) => JobEvent::Percent(*p),
            JobEvent::RateBytesPerSec(r) => JobEvent::RateBytesPerSec(*r),
            JobEvent::Completed(r) => JobEvent::Completed(clone_outcome(r)),
        }
    }
}

/// What a `JobEvent` holds, as plain values.
pub enum JobEventView {
    Percent(i64),
    RateBytesPerSec(u64),
    Completed(Result<(), Seq<char>>),
}

impl View for JobEvent {
    type V = JobEventView;

    open spec fn view(&self) -> JobEventView {
        match *self {
            JobEvent::Percent(p) => JobEventView::Percent(p),
            JobEvent::RateBytesPerSec(r) => JobEventView::RateBytesPerSec(r),
            JobEvent::Completed(r) => JobEventView::Completed(outcome_text(r)),
        }
    }
}

} // verus!
