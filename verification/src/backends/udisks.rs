//! What stands between a format request and the disk service: the request
//! in the form that the service takes, and the choice of the devices that
//! may be formatted at all.

use vstd::prelude::*;

use crate::backends::{
    fs_kind, opt_text, BlockDevice, BlockDeviceView, FilesystemKind, FormatOptions,
    FormatOptionsView,
};
use crate::text::{holds, starts_with};
use crate::utils::unsupported_fs_text;

verus! {

/// A format request as the disk service takes it: one variant for each
/// filesystem, with the allocation unit under the name that it has there.
#[derive(Debug, PartialEq, Eq)]
pub enum TypedFormatOptions {
    Ext4 { label: Option<String>, block_size: Option<u64>, quick: bool },
    Vfat { label: Option<String>, sectors_per_cluster: Option<u64>, quick: bool },
    Exfat { label: Option<String>, cluster_size: Option<u64>, quick: bool },
    Ntfs { label: Option<String>, cluster_size: Option<u64>, quick: bool },
    Xfs { label: Option<String>, block_size: Option<u64>, quick: bool },
    Btrfs { label: Option<String>, nodesize: Option<u64>, quick: bool },
}

/// What a `TypedFormatOptions` holds, as plain values.
pub struct TypedFormatOptionsView {
    pub kind: FilesystemKind,
    pub label: Option<Seq<char>>,
    pub unit: Option<u64>,
    pub quick: bool,
}

impl View for TypedFormatOptions {
    type V = TypedFormatOptionsView;

    open spec fn view(&self) -> TypedFormatOptionsView {
        match *self {
            TypedFormatOptions::Ext4 { label, block_size, quick } => TypedFormatOptionsView {
                kind: FilesystemKind::Ext4,
                label: opt_text(label),
                unit: block_size,
                quick,
            },
            TypedFormatOptions::Vfat {
                label,
                sectors_per_cluster,
                quick,
            } => TypedFormatOptionsView {
                kind: FilesystemKind::Vfat,
                label: opt_text(label),
                unit: sectors_per_cluster,
                quick,
            },
            TypedFormatOptions::Exfat { label, cluster_size, quick } => TypedFormatOptionsView {
                kind: FilesystemKind::Exfat,
                label: opt_text(label),
                unit: cluster_size,
                quick,
            },
            TypedFormatOptions::Ntfs { label, cluster_size, quick } => TypedFormatOptionsView {
                kind: FilesystemKind::Ntfs,
                label: opt_text(label),
                unit: cluster_size,
                quick,
            },
            TypedFormatOptions::Xfs { label, block_size, quick } => TypedFormatOptionsView {
                kind: FilesystemKind::Xfs,
                label: opt_text(label),
                unit: block_size,
                quick,
            },
            TypedFormatOptions::Btrfs { label, nodesize, quick } => TypedFormatOptionsView {
                kind: FilesystemKind::Btrfs,
                label: opt_text(label),
                unit: nodesize,
                quick,
            },
        }
    }
}

impl Clone for TypedFormatOptions {
    fn clone(&self) -> (r: TypedFormatOptions)
        ensures
            r == *self,
    {
        match self {
            TypedFormatOptions::Ext4 { label, block_size, quick } => TypedFormatOptions::Ext4 {
                label: label.clone(),
                block_size: *block_size,
                quick: *quick,
            },
            TypedFormatOptions::Vfat {
                label,
                sectors_per_cluster,
                quick,
            } => TypedFormatOptions::Vfat {
                label: label.clone(),
                sectors_per_cluster: *sectors_per_cluster,
                quick: *quick,
            },
            TypedFormatOptions::Exfat { label, cluster_size, quick } => TypedFormatOptions::Exfat {
                label: label.clone(),
                cluster_size: *cluster_size,
                quick: *quick,
            },
            TypedFormatOptions::Ntfs { label, cluster_size, quick } => TypedFormatOptions::Ntfs {
                label: label.clone(),
                cluster_size: *cluster_size,
                quick: *quick,
            },
            TypedFormatOptions::Xfs { label, block_size, quick } => TypedFormatOptions::Xfs {
                label: label.clone(),
                block_size: *block_size,
                quick: *quick,
            },
            TypedFormatOptions::Btrfs { label, nodesize, quick } => TypedFormatOptions::Btrfs {
                label: label.clone(),
                nodesize: *nodesize,
                quick: *quick,
            },
        }
    }
}

/// The form that the disk service takes of a request, or why it has none:
/// the label, the allocation unit and the quick flag are carried over as
/// they are, under the filesystem that the request names.
pub open spec fn typed_request(opts: FormatOptionsView) -> Result<
    TypedFormatOptionsView,
    Seq<char>,
> {
    match fs_kind(opts.fs) {
        Some(kind) => Ok(
            TypedFormatOptionsView {
                kind,
                label: opts.label,
                unit: opts.cluster_or_block_size,
                quick: opts.quick,
            },
        ),
        None => Err(unsupported_fs_text(opts.fs)),
    }
}

/// Puts a request in the form that the disk service takes.
pub fn to_ud_opts(opts: &FormatOptions) -> (r: Result<TypedFormatOptions, String>)
    ensures
        match typed_request(opts@) {
            Ok(t) => r matches Ok(typed) && typed@ == t,
            Err(e) => r matches Err(msg) && msg@ == e,
        },
{
    let label = opts.label.clone();
    let quick = opts.quick;
    let sz = opts.cluster_or_block_size;
    match FilesystemKind::parse(opts.fs.as_str()) {
        Some(FilesystemKind::Ext4) => Ok(
            TypedFormatOptions::Ext4 { label, block_size: sz, quick },
        ),
        Some(FilesystemKind::Xfs) => Ok(TypedFormatOptions::Xfs { label, block_size: sz, quick }),
        Some(FilesystemKind::Btrfs) => Ok(
            TypedFormatOptions::Btrfs { label, nodesize: sz, quick },
        ),
        Some(FilesystemKind::Exfat) => Ok(
            TypedFormatOptions::Exfat { label, cluster_size: sz, quick },
        ),
        Some(FilesystemKind::Ntfs) => Ok(
            TypedFormatOptions::Ntfs { label, cluster_size: sz, quick },
        ),
        Some(FilesystemKind::Vfat) => Ok(
            TypedFormatOptions::Vfat { label, sectors_per_cluster: sz, quick },
        ),
        None => {
            let mut msg = String::from_str("Unsupported filesystem: ");
            msg.append(opts.fs.as_str());
            Err(msg)
        },
    }
}

/// A valid request always has a form that the disk service takes.
pub proof fn lemma_valid_request_is_typed(opts: FormatOptionsView)
    requires
        opts.is_valid(),
    ensures
        typed_request(opts) is Ok,
{
}

/// What the disk service tells of a block device.
#[derive(Debug, PartialEq, Eq)]
pub struct DeviceInfo {
    pub dev_path: String,
    pub object_path: String,
    pub is_mounted: bool,
    pub is_partition: bool,
    pub size_bytes: Option<u64>,
    pub fs_type: Option<String>,
    pub label: Option<String>,
    pub is_removable: bool,
    pub is_optical: bool,
    pub vendor_model: Option<String>,
}

/// What a `DeviceInfo` holds, as plain values.
pub struct DeviceInfoView {
    pub dev_path: Seq<char>,
    pub object_path: Seq<char>,
    pub is_mounted: bool,
    pub is_partition: bool,
    pub size_bytes: Option<u64>,
    pub fs_type: Option<Seq<char>>,
    pub label: Option<Seq<char>>,
    pub is_removable: bool,
    pub is_optical: bool,
    pub vendor_model: Option<Seq<char>>,
}

impl View for DeviceInfo {
    type V = DeviceInfoView;

    open spec fn view(&self) -> DeviceInfoView {
        DeviceInfoView {
            dev_path: self.dev_path@,
            object_path: self.object_path@,
            is_mounted: self.is_mounted,
            is_partition: self.is_partition,
            size_bytes: self.size_bytes,
            fs_type: opt_text(self.fs_type),
            label: opt_text(self.label),
            is_removable: self.is_removable,
            is_optical: self.is_optical,
            vendor_model: opt_text(self.vendor_model),
        }
    }
}

impl DeviceInfoView {
    /// A device may be formatted when it is removable and no optical
    /// drive, by what the service says of it or by its path.
    pub open spec fn is_candidate(self) -> bool {
        !self.is_optical && !"/dev/sr"@.is_prefix_of(self.dev_path) && self.is_removable
    }

    /// The snapshot that is shown of a device.
    pub open spec fn snapshot(self) -> BlockDeviceView {
        BlockDeviceView {
            dev_path: self.dev_path,
            object_path: self.object_path,
            fs_type: self.fs_type,
            label: self.label,
            size_bytes: self.size_bytes,
            vendor_model: self.vendor_model,
            is_partition: self.is_partition,
        }
    }
}

/// What a list of devices holds, as plain values.
pub open spec fn info_views(devs: Seq<DeviceInfo>) -> Seq<DeviceInfoView> {
    Seq::new(devs.len(), |i: int| devs[i]@)
}

/// What a list of snapshots holds, as plain values.
spec fn device_views(devs: Seq<BlockDevice>) -> Seq<BlockDeviceView> {
    Seq::new(devs.len(), |i: int| devs[i]@)
}

/// The snapshots of the devices that may be formatted, in the order in
/// which the service lists them.
pub open spec fn candidates(devs: Seq<DeviceInfoView>) -> Seq<BlockDeviceView>
    decreases devs.len(),
{
    if devs.len() == 0 {
        Seq::empty()
    } else if devs.last().is_candidate() {
        candidates(devs.drop_last()).push(devs.last().snapshot())
    } else {
        candidates(devs.drop_last())
    }
}

/// Picks the devices that may be formatted out of those that the disk
/// service lists.
pub fn list_block_devices(devs: &[DeviceInfo]) -> (out: Vec<BlockDevice>)
    ensures
        holds(out@, candidates(info_views(devs@))),
{
    let mut out: Vec<BlockDevice> = Vec::new();
    let mut i: usize = 0;
    while i < devs.len()
        invariant
            i <= devs.len(),
            device_views(out@) == candidates(info_views(devs@).take(i as int)),
        decreases devs.len() - i,
    {
        let d = &devs[i];
        let ghost before = info_views(devs@).take(i as int);
        let ghost after = info_views(devs@).take(i + 1);
        assert(after.drop_last() =~= before);
        if !d.is_optical && !starts_with(d.dev_path.as_str(), "/dev/sr") && d.is_removable {
            out.push(
                BlockDevice {
                    dev_path: d.dev_path.clone(),
                    object_path: d.object_path.clone(),
                    fs_type: d.fs_type.clone(),
                    label: d.label.clone(),
                    size_bytes: d.size_bytes,
                    vendor_model: d.vendor_model.clone(),
                    is_partition: d.is_partition,
                },
            );
        }
        i += 1;
    }
    assert(info_views(devs@).take(i as int) =~= info_views(devs@));
    assert forall|k: int| 0 <= k < out@.len() implies (#[trigger] out@[k])@ == device_views(
        out@,
    )[k] by {}
    out
}

/// Nothing but removable devices that are no optical drives is listed, and
/// each of those is.
pub proof fn lemma_candidates_are_filtered(devs: Seq<DeviceInfoView>, dev: BlockDeviceView)
    ensures
        candidates(devs).contains(dev) <==> exists|i: int|
            0 <= i < devs.len() && (#[trigger] devs[i]).is_candidate() && devs[i].snapshot() == dev,
    decreases devs.len(),
{
    if devs.len() > 0 {
        let rest = devs.drop_last();
        lemma_candidates_are_filtered(rest, dev);
        if candidates(devs).contains(dev) {
            if devs.last().is_candidate() && devs.last().snapshot() == dev {
                assert(devs[devs.len() - 1].is_candidate());
            } else {
                let i = choose|i: int|
                    0 <= i < rest.len() && (#[trigger] rest[i]).is_candidate() && rest[i].snapshot()
                        == dev;
                assert(devs[i].is_candidate() && devs[i].snapshot() == dev);
            }
        }
        if exists|i: int|
            0 <= i < devs.len() && (#[trigger] devs[i]).is_candidate() && devs[i].snapshot()
                == dev {
            let i = choose|i: int|
                0 <= i < devs.len() && (#[trigger] devs[i]).is_candidate() && devs[i].snapshot()
                    == dev;
            if i == devs.len() - 1 {
                assert(candidates(devs)[candidates(devs).len() - 1] == dev);
            } else {
                assert(rest[i].is_candidate() && rest[i].snapshot() == dev);
                let j = choose|j: int|
                    0 <= j < candidates(rest).len() && candidates(rest)[j] == dev;
                assert(candidates(devs)[j] == dev);
            }
        }
    }
}

} // verus!
