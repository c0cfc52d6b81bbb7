//! The rules that a format request has to meet, and the small decisions
//! around it: which filesystem to offer, how to read an allocation unit,
//! how to show a device.

use vstd::prelude::*;
use vstd::utf8::encode_utf8;

use crate::backends::{
    fs_kind, fs_name_text, opt_text, BlockDevice, BlockDeviceView, FilesystemKind, FormatOptions,
    FormatOptionsView, PartitionTable,
};
use crate::text::{
    chars_of, first_token, first_word, holds, is_control, is_control_char, join, join_text,
    parse_u64, parse_unsigned, same_text, texts,
};

verus! {

/// Characters that a FAT volume label cannot hold: the ten reserved ones
/// and every control code.
pub open spec fn fat_invalid(c: char) -> bool {
    ||| c == '"'
    ||| c == '*'
    ||| c == '/'
    ||| c == ':'
    ||| c == '<'
    ||| c == '>'
    ||| c == '?'
    ||| c == '\\'
    ||| c == '|'
    ||| c == '\0'
    ||| is_control(c)
}

/// Whether `label` holds a character that a FAT volume label cannot hold.
pub open spec fn has_fat_invalid(label: Seq<char>) -> bool {
    exists|i: int| 0 <= i < label.len() && fat_invalid(#[trigger] label[i])
}

/// Whether `label` holds a character that a FAT volume label cannot hold.
pub fn has_fat_invalid_chars(label: &str) -> (r: bool)
    ensures
        r == has_fat_invalid(label@),
{
    let chars = chars_of(label);
    let mut i: usize = 0;
    while i < chars.len()
        invariant
            i <= chars.len(),
            chars@ == label@,
            forall|j: int| 0 <= j < i ==> !fat_invalid(#[trigger] label@[j]),
        decreases chars.len() - i,
    {
        let c: char = chars[i];
        if c == '"' || c == '*' || c == '/' || c == ':' || c == '<' || c == '>' || c == '?' || c
            == '\\' || c == '|' || c == '\0' || is_control_char(c) {
            return true;
        }
        i += 1;
    }
    false
}

/// The longest label that a filesystem takes.
pub open spec fn label_limit(kind: FilesystemKind) -> nat {
    match kind {
        FilesystemKind::Vfat => 11,
        FilesystemKind::Exfat => 15,
        FilesystemKind::Ntfs => 32,
        FilesystemKind::Ext4 => 16,
        FilesystemKind::Xfs => 12,
        FilesystemKind::Btrfs => 255,
    }
}

/// Whether a filesystem counts the length of a label in bytes of UTF-8.
/// The others count characters.
pub open spec fn limit_in_bytes(kind: FilesystemKind) -> bool {
    match kind {
        FilesystemKind::Exfat | FilesystemKind::Ntfs => false,
        _ => true,
    }
}

/// The length of `label` as a filesystem counts it.
pub open spec fn label_length(kind: FilesystemKind, label: Seq<char>) -> nat {
    if limit_in_bytes(kind) {
        encode_utf8(label).len()
    } else {
        label.len()
    }
}

/// Whether a label of this filesystem cannot hold `c`.
pub open spec fn forbidden(kind: FilesystemKind, c: char) -> bool {
    match kind {
        FilesystemKind::Vfat | FilesystemKind::Exfat => fat_invalid(c),
        FilesystemKind::Ext4 => c == '\0' || c == '/',
        _ => c == '\0',
    }
}

/// Whether `label` holds a character that the filesystem does not take.
pub open spec fn has_forbidden(kind: FilesystemKind, label: Seq<char>) -> bool {
    exists|i: int| 0 <= i < label.len() && forbidden(kind, #[trigger] label[i])
}

/// What is said of a label that is too long.
pub open spec fn too_long_text(kind: FilesystemKind) -> Seq<char> {
    match kind {
        FilesystemKind::Vfat => "vfat: max 11 bytes"@,
        FilesystemKind::Exfat => "exfat: max 15 characters"@,
        FilesystemKind::Ntfs => "ntfs: max 32 characters"@,
        FilesystemKind::Ext4 => "ext4: max 16 bytes"@,
        FilesystemKind::Xfs => "xfs: max 12 bytes"@,
        FilesystemKind::Btrfs => "btrfs: max 255 bytes"@,
    }
}

/// What is said of a label with a character that the filesystem does not
/// take.
pub open spec fn invalid_chars_text(kind: FilesystemKind) -> Seq<char> {
    match kind {
        FilesystemKind::Vfat => "vfat: invalid characters"@,
        FilesystemKind::Exfat => "exfat: invalid characters"@,
        FilesystemKind::Ntfs => "ntfs: invalid characters"@,
        FilesystemKind::Ext4 => "ext4: invalid characters"@,
        FilesystemKind::Xfs => "xfs: invalid characters"@,
        FilesystemKind::Btrfs => "btrfs: invalid characters"@,
    }
}

/// Whether a filesystem takes `label` as it is: short enough, and free of
/// the characters that the filesystem does not take.
pub open spec fn label_fits(kind: FilesystemKind, label: Seq<char>) -> bool {
    label_length(kind, label) <= label_limit(kind) && !has_forbidden(kind, label)
}

/// Why a filesystem does not take `label`, if it does not. The empty label
/// stands for no label and is always taken; length is judged before
/// content.
pub open spec fn label_problem(kind: FilesystemKind, label: Seq<char>) -> Option<Seq<char>> {
    if label.len() == 0 {
        None
    } else if label_length(kind, label) > label_limit(kind) {
        Some(too_long_text(kind))
    } else if has_forbidden(kind, label) {
        Some(invalid_chars_text(kind))
    } else {
        None
    }
}

/// Why `label` cannot be the label of a volume of the filesystem named
/// `fs`, if it cannot. Nothing is said under a name that is no filesystem's.
pub open spec fn label_error(label: Seq<char>, fs: Seq<char>) -> Option<Seq<char>> {
    match fs_kind(fs) {
        Some(kind) => label_problem(kind, label),
        None => None,
    }
}

fn is_forbidden(kind: FilesystemKind, c: char) -> (r: bool)
    ensures
        r == forbidden(kind, c),
{
    match kind {
        FilesystemKind::Vfat | FilesystemKind::Exfat => {
            c == '"' || c == '*' || c == '/' || c == ':' || c == '<' || c == '>' || c == '?' || c
                == '\\' || c == '|' || c == '\0' || is_control_char(c)
        },
        FilesystemKind::Ext4 => c == '\0' || c == '/',
        _ => c == '\0',
    }
}

fn holds_forbidden(kind: FilesystemKind, label: &Vec<char>) -> (r: bool)
    ensures
        r == has_forbidden(kind, label@),
{
    let mut i: usize = 0;
    while i < label.len()
        invariant
            i <= label.len(),
            forall|j: int| 0 <= j < i ==> !forbidden(kind, #[trigger] label@[j]),
        decreases label.len() - i,
    {
        if is_forbidden(kind, label[i]) {
            return true;
        }
        i += 1;
    }
    false
}

fn too_long_message(kind: FilesystemKind) -> (r: &'static str)
    ensures
        r@ == too_long_text(kind),
{
    match kind {
        FilesystemKind::Vfat => "vfat: max 11 bytes",
        FilesystemKind::Exfat => "exfat: max 15 characters",
        FilesystemKind::Ntfs => "ntfs: max 32 characters",
        FilesystemKind::Ext4 => "ext4: max 16 bytes",
        FilesystemKind::Xfs => "xfs: max 12 bytes",
        FilesystemKind::Btrfs => "btrfs: max 255 bytes",
    }
}

fn invalid_chars_message(kind: FilesystemKind) -> (r: &'static str)
    ensures
        r@ == invalid_chars_text(kind),
{
    match kind {
        FilesystemKind::Vfat => "vfat: invalid characters",
        FilesystemKind::Exfat => "exfat: invalid characters",
        FilesystemKind::Ntfs => "ntfs: invalid characters",
        FilesystemKind::Ext4 => "ext4: invalid characters",
        FilesystemKind::Xfs => "xfs: invalid characters",
        FilesystemKind::Btrfs => "btrfs: invalid characters",
    }
}

/// Checks a volume label against the rules of the filesystem named `fs`,
/// and says what is wrong with it, if anything is.
pub fn validate_label(label: &str, fs: &str) -> (r: Option<String>)
    ensures
        opt_text(r) == label_error(label@, fs@),
{
    if label.is_empty() {
        return None;
    }
    let kind = match FilesystemKind::parse(fs) {
        Some(kind) => kind,
        None => {
            return None;
        },
    };
    let chars = chars_of(label);
    let bytes: usize = label.as_bytes().len();
    let too_long = match kind {
        FilesystemKind::Exfat => chars.len() > 15,
        FilesystemKind::Ntfs => chars.len() > 32,
        FilesystemKind::Vfat => bytes > 11,
        FilesystemKind::Ext4 => bytes > 16,
        FilesystemKind::Xfs => bytes > 12,
        FilesystemKind::Btrfs => bytes > 255,
    };
    if too_long {
        Some(String::from_str(too_long_message(kind)))
    } else if holds_forbidden(kind, &chars) {
        Some(String::from_str(invalid_chars_message(kind)))
    } else {
        None
    }
}

/// What is said of a request for a filesystem that does not exist.
pub open spec fn unsupported_fs_text(fs: Seq<char>) -> Seq<char> {
    "Unsupported filesystem: "@ + fs
}

/// What is said of an allocation unit of zero.
pub open spec fn zero_unit_text() -> Seq<char> {
    "allocation unit must be positive"@
}

/// Why a request cannot be made of these values, if it cannot: the
/// filesystem is judged first, then the label, then the allocation unit.
pub open spec fn request_error(
    fs: Seq<char>,
    label: Option<Seq<char>>,
    unit: Option<u64>,
) -> Option<Seq<char>> {
    if fs_kind(fs) is None {
        Some(unsupported_fs_text(fs))
    } else if label is Some && label_error(label->0, fs) is Some {
        label_error(label->0, fs)
    } else if unit == Some(0u64) {
        Some(zero_unit_text())
    } else {
        None
    }
}

/// The label that a request keeps: the empty label is no label.
pub open spec fn stored_label(label: Option<Seq<char>>) -> Option<Seq<char>> {
    match label {
        Some(l) => if l.len() == 0 {
            None
        } else {
            Some(l)
        },
        None => None,
    }
}

impl FormatOptionsView {
    /// A request is valid when it names a filesystem, its label is not
    /// empty and fits that filesystem, and its allocation unit is positive.
    pub open spec fn is_valid(self) -> bool {
        &&& fs_kind(self.fs) is Some
        &&& self.label matches Some(l) ==> l.len() > 0 && label_fits(fs_kind(self.fs)->0, l)
        &&& self.cluster_or_block_size matches Some(n) ==> n > 0
    }
}

/// Makes a format request of the values that a user chose, or says why
/// they make none. The empty label is kept as no label.
pub fn build_format_options(
    fs: String,
    label: Option<String>,
    quick: bool,
    cluster_or_block_size: Option<u64>,
    partition_table: Option<PartitionTable>,
) -> (r: Result<FormatOptions, String>)
    ensures
        match request_error(fs@, opt_text(label), cluster_or_block_size) {
            Some(e) => r matches Err(msg) && msg@ == e,
            None => r matches Ok(o) && o@ == (FormatOptionsView {
                fs: fs@,
                label: stored_label(opt_text(label)),
                quick,
                cluster_or_block_size,
                partition_table,
            }),
        },
        r matches Ok(o) ==> o@.is_valid(),
{
    if FilesystemKind::parse(fs.as_str()).is_none() {
        let mut msg = String::from_str("Unsupported filesystem: ");
        msg.append(fs.as_str());
        return Err(msg);
    }
    let kept: Option<String> = match label {
        Some(text) => {
            if let Some(err) = validate_label(text.as_str(), fs.as_str()) {
                return Err(err);
            }
            if text.as_str().is_empty() {
                None
            } else {
                Some(text)
            }
        },
        None => None,
    };
    if let Some(unit) = cluster_or_block_size {
        if unit == 0 {
            return Err(String::from_str("allocation unit must be positive"));
        }
    }
    Ok(FormatOptions { fs, label: kept, quick, cluster_or_block_size, partition_table })
}

/// The text of an optional string slice.
pub open spec fn opt_str_text(s: Option<&str>) -> Option<Seq<char>> {
    match s {
        Some(t) => Some(t@),
        None => None,
    }
}

/// The allocation unit that a size choice stands for. `Auto`, or no choice,
/// leaves the unit to the disk service; any other choice gives the number
/// that its first word is, whatever unit is named after it.
pub open spec fn size_choice_value(label: Option<Seq<char>>) -> Option<u64> {
    match label {
        Some(s) => if s == "Auto"@ {
            None
        } else {
            parse_u64(first_token(s))
        },
        None => None,
    }
}

/// Reads the allocation unit off a size choice.
pub fn parse_size_choice_label(label: Option<&str>) -> (r: Option<u64>)
    ensures
        r == size_choice_value(opt_str_text(label)),
{
    match label {
        Some(s) => {
            if same_text(s, "Auto") {
                None
            } else {
                let chars = chars_of(s);
                let word = first_word(&chars);
                parse_unsigned(&word)
            }
        },
        None => None,
    }
}

/// A label as long as the filesystem's limit is taken, and one that is
/// longer by one is not: here for labels without a character that the
/// filesystem does not take.
pub proof fn lemma_label_limit_is_sharp(kind: FilesystemKind, label: Seq<char>)
    requires
        !has_forbidden(kind, label),
    ensures
        label_length(kind, label) == label_limit(kind) ==> label_problem(kind, label) is None,
        label_length(kind, label) == label_limit(kind) + 1 ==> label_problem(kind, label) == Some(
            too_long_text(kind),
        ),
{
    if label.len() == 0 {
        assert(encode_utf8(label) =~= Seq::<u8>::empty()) by {
            reveal_with_fuel(encode_utf8, 1);
        }
    }
}

/// A request that was built is valid: it names one of the six
/// filesystems, and its label, if it has one, meets that filesystem's
/// rules.
pub proof fn lemma_built_request_is_valid(
    fs: Seq<char>,
    label: Option<Seq<char>>,
    quick: bool,
    unit: Option<u64>,
    table: Option<PartitionTable>,
)
    requires
        request_error(fs, label, unit) is None,
    ensures
        (FormatOptionsView {
            fs,
            label: stored_label(label),
            quick,
            cluster_or_block_size: unit,
            partition_table: table,
        }).is_valid(),
        stored_label(label) matches Some(l) ==> label_error(l, fs) is None,
{
}

/// An asterisk makes a label unfit for FAT, whatever else it holds, while
/// NTFS takes the same label wherever it is short enough and free of NUL.
pub proof fn lemma_asterisk_by_filesystem(label: Seq<char>)
    requires
        exists|i: int| 0 <= i < label.len() && label[i] == '*',
    ensures
        label_problem(FilesystemKind::Vfat, label) is Some,
        label_problem(FilesystemKind::Exfat, label) is Some,
        label.len() <= 32 && !has_forbidden(FilesystemKind::Ntfs, label) ==> label_problem(
            FilesystemKind::Ntfs,
            label,
        ) is None,
{
    let i = choose|i: int| 0 <= i < label.len() && label[i] == '*';
}

/// The filesystems in the order in which they are preferred when the user
/// names none.
pub open spec fn default_kind(supported: Seq<Seq<char>>) -> Option<FilesystemKind> {
    if supported.contains("exfat"@) {
        Some(FilesystemKind::Exfat)
    } else if supported.contains("vfat"@) {
        Some(FilesystemKind::Vfat)
    } else if supported.contains("ext4"@) {
        Some(FilesystemKind::Ext4)
    } else if supported.contains("ntfs"@) {
        Some(FilesystemKind::Ntfs)
    } else if supported.contains("xfs"@) {
        Some(FilesystemKind::Xfs)
    } else if supported.contains("btrfs"@) {
        Some(FilesystemKind::Btrfs)
    } else {
        None
    }
}

/// The filesystem that is offered first is one of those that are
/// supported.
pub proof fn lemma_default_is_supported(supported: Seq<Seq<char>>)
    ensures
        default_kind(supported) matches Some(kind) ==> supported.contains(fs_name_text(kind)),
{
}

/// The texts of a list of string slices.
pub open spec fn names(list: Seq<&str>) -> Seq<Seq<char>> {
    Seq::new(list.len(), |i: int| list[i]@)
}

/// Whether `list` holds the name `name`.
pub fn holds_name(list: &[&str], name: &str) -> (r: bool)
    ensures
        r == names(list@).contains(name@),
{
    let mut i: usize = 0;
    while i < list.len()
        invariant
            i <= list.len(),
            forall|j: int| 0 <= j < i ==> names(list@)[j] != name@,
        decreases list.len() - i,
    {
        if same_text(list[i], name) {
            assert(names(list@)[i as int] == name@);
            return true;
        }
        i += 1;
    }
    false
}

/// The filesystem to offer first: the most preferred one among those that
/// are supported.
pub fn default_fs(supported: &[&str]) -> (r: Option<&'static str>)
    ensures
        match default_kind(names(supported@)) {
            Some(kind) => r matches Some(name) && name@ == fs_name_text(kind),
            None => r is None,
        },
{
    if holds_name(supported, "exfat") {
        Some("exfat")
    } else if holds_name(supported, "vfat") {
        Some("vfat")
    } else if holds_name(supported, "ext4") {
        Some("ext4")
    } else if holds_name(supported, "ntfs") {
        Some("ntfs")
    } else if holds_name(supported, "xfs") {
        Some("xfs")
    } else if holds_name(supported, "btrfs") {
        Some("btrfs")
    } else {
        None
    }
}

/// The programs that make a filesystem of a kind: one of them is enough.
pub open spec fn mkfs_programs(kind: FilesystemKind) -> Seq<Seq<char>> {
    match kind {
        FilesystemKind::Vfat => seq!["mkfs.vfat"@],
        FilesystemKind::Exfat => seq!["mkfs.exfat"@],
        FilesystemKind::Ntfs => seq!["mkfs.ntfs"@, "mkntfs"@],
        FilesystemKind::Ext4 => seq!["mkfs.ext4"@, "mke2fs"@],
        FilesystemKind::Xfs => seq!["mkfs.xfs"@],
        FilesystemKind::Btrfs => seq!["mkfs.btrfs"@],
    }
}

/// The programs that make a filesystem of the kind named `fs`: none under
/// a name that is no filesystem's.
pub open spec fn programs_for(fs: Seq<char>) -> Seq<Seq<char>> {
    match fs_kind(fs) {
        Some(kind) => mkfs_programs(kind),
        None => Seq::empty(),
    }
}

/// Whether a filesystem of the kind named `fs` can be made where the
/// programs `installed` are at hand.
pub open spec fn can_make(fs: Seq<char>, installed: Seq<Seq<char>>) -> bool {
    match fs_kind(fs) {
        Some(kind) => exists|i: int|
            0 <= i < mkfs_programs(kind).len() && installed.contains(
                #[trigger] mkfs_programs(kind)[i],
            ),
        None => false,
    }
}

/// The names of the programs by which a filesystem of the kind named `fs`
/// is made.
pub fn mkfs_candidates(fs: &str) -> (r: Vec<&'static str>)
    ensures
        holds(r@, programs_for(fs@)),
{
    let mut r: Vec<&'static str> = Vec::new();
    match FilesystemKind::parse(fs) {
        Some(FilesystemKind::Vfat) => {
            r.push("mkfs.vfat");
        },
        Some(FilesystemKind::Exfat) => {
            r.push("mkfs.exfat");
        },
        Some(FilesystemKind::Ntfs) => {
            r.push("mkfs.ntfs");
            r.push("mkntfs");
        },
        Some(FilesystemKind::Ext4) => {
            r.push("mkfs.ext4");
            r.push("mke2fs");
        },
        Some(FilesystemKind::Xfs) => {
            r.push("mkfs.xfs");
        },
        Some(FilesystemKind::Btrfs) => {
            r.push("mkfs.btrfs");
        },
        None => {},
    }
    r
}

/// Whether a filesystem of the kind named `fs` can be made with one of the
/// programs `installed`.
pub fn mkfs_present(fs: &str, installed: &[&str]) -> (r: bool)
    ensures
        r == can_make(fs@, names(installed@)),
{
    let candidates = mkfs_candidates(fs);
    let ghost programs = names(candidates@);
    let mut i: usize = 0;
    while i < candidates.len()
        invariant
            i <= candidates.len(),
            programs == names(candidates@),
            programs == programs_for(fs@),
            forall|j: int| 0 <= j < i ==> !names(installed@).contains(#[trigger] programs[j]),
        decreases candidates.len() - i,
    {
        if holds_name(installed, candidates[i]) {
            proof {
                let kind = fs_kind(fs@)->0;
                assert(names(installed@).contains(mkfs_programs(kind)[i as int]));
            }
            return true;
        }
        i += 1;
    }
    false
}

/// The filesystems that can be made here, in the order in which they are
/// listed.
pub open spec fn supported_fs(installed: Seq<Seq<char>>) -> Seq<Seq<char>> {
    offered("exfat"@, installed) + offered("vfat"@, installed) + offered("ntfs"@, installed)
        + offered("ext4"@, installed) + offered("xfs"@, installed) + offered("btrfs"@, installed)
}

/// The name `fs` where that filesystem can be made, and nothing where not.
pub open spec fn offered(fs: Seq<char>, installed: Seq<Seq<char>>) -> Seq<Seq<char>> {
    if can_make(fs, installed) {
        seq![fs]
    } else {
        Seq::empty()
    }
}

/// The filesystems that can be made with the programs `installed`.
pub fn detect_supported_fs(installed: &[&str]) -> (r: Vec<&'static str>)
    ensures
        holds(r@, supported_fs(names(installed@))),
{
    let mut r: Vec<&'static str> = Vec::new();
    if mkfs_present("exfat", installed) {
        r.push("exfat");
    }
    if mkfs_present("vfat", installed) {
        r.push("vfat");
    }
    if mkfs_present("ntfs", installed) {
        r.push("ntfs");
    }
    if mkfs_present("ext4", installed) {
        r.push("ext4");
    }
    if mkfs_present("xfs", installed) {
        r.push("xfs");
    }
    if mkfs_present("btrfs", installed) {
        r.push("btrfs");
    }
    r
}

/// A text between double quotes.
pub open spec fn quoted(s: Seq<char>) -> Seq<char> {
    seq!['"'] + s + seq!['"']
}

/// One entry, where there is one.
pub open spec fn entry(text: Option<Seq<char>>) -> Seq<Seq<char>> {
    match text {
        Some(t) => seq![t],
        None => Seq::empty(),
    }
}

/// A text, unless it is absent or empty.
pub open spec fn non_empty(text: Option<Seq<char>>) -> Option<Seq<char>> {
    match text {
        Some(t) => if t.len() > 0 {
            Some(t)
        } else {
            None
        },
        None => None,
    }
}

/// What is said of a device after its path: whether it is a partition or a
/// disk, then its size, its vendor and model, its filesystem and its label
/// between quotes, each where it is known.
pub open spec fn display_extras(dev: BlockDeviceView, size_text: Option<Seq<char>>) -> Seq<
    Seq<char>,
> {
    seq![
        if dev.is_partition {
            "Partition"@
        } else {
            "Disk"@
        },
    ] + entry(size_text) + entry(dev.vendor_model) + entry(non_empty(dev.fs_type)) + entry(
        match non_empty(dev.label) {
            Some(l) => Some(quoted(l)),
            None => None,
        },
    )
}

/// The line that shows a device: its path, or its identifier where it has
/// no path, and in brackets what else is known of it.
pub open spec fn display_text(dev: BlockDeviceView, size_text: Option<Seq<char>>) -> Seq<char> {
    let base = if dev.dev_path.len() > 0 {
        dev.dev_path
    } else {
        dev.object_path
    };
    base + " ("@ + join(display_extras(dev, size_text), ", "@) + ")"@
}

/// The line that shows `dev` in a list of devices. `size_text` is the size
/// of the device in words, where it is known.
pub fn device_display(dev: &BlockDevice, size_text: Option<&str>) -> (r: String)
    ensures
        r@ == display_text(dev@, opt_str_text(size_text)),
{
    let mut extras: Vec<String> = Vec::new();
    extras.push(
        String::from_str(
            if dev.is_partition {
                "Partition"
            } else {
                "Disk"
            },
        ),
    );
    if let Some(size) = size_text {
        extras.push(String::from_str(size));
    }
    if let Some(vm) = &dev.vendor_model {
        extras.push(vm.clone());
    }
    if let Some(fs) = &dev.fs_type {
        if !fs.as_str().is_empty() {
            extras.push(fs.clone());
        }
    }
    if let Some(lbl) = &dev.label {
        if !lbl.as_str().is_empty() {
            let mut q = String::from_str("\"");
            q.append(lbl.as_str());
            q.append("\"");
            proof {
                reveal_strlit("\"");
                assert(q@ =~= quoted(lbl@));
            }
            extras.push(q);
        }
    }
    assert(texts(extras@) =~= display_extras(dev@, opt_str_text(size_text)));
    let mut r = if !dev.dev_path.as_str().is_empty() {
        dev.dev_path.clone()
    } else {
        dev.object_path.clone()
    };
    r.append(" (");
    r.append(join_text(&extras, ", ").as_str());
    r.append(")");
    r
}

} // verus!
