//! Classification of the block devices that Linux's `lsblk` reports.
use vstd::prelude::*;

use crate::device::{DeviceDescriptor, MountPoint};
use crate::text::{
    clone_opt, contains, eq_ignore_ascii_case, opt_chars, parse_u64, spec_contains,
    spec_eq_ignore_ascii_case, spec_parse_u64, to_upper, upper_of,
};

verus! {

/// A file system size as `lsblk` reports it: sometimes a number, sometimes a
/// string holding one.
#[derive(Clone, Debug)]
pub enum FsSize {
    Text(String),
    Bytes(u64),
}

/// A partition (child) of a block device.
#[derive(Clone, Debug)]
pub struct LsblkChild {
    pub mountpoint: Option<String>,
    pub fssize: Option<FsSize>,
    pub fsavail: Option<FsSize>,
    pub label: Option<String>,
    pub partlabel: Option<String>,
}

/// One block device record of `lsblk`.
#[derive(Clone, Debug)]
pub struct LsblkDevice {
    pub size: Option<u64>,
    pub kname: String,
    pub name: String,
    pub tran: Option<String>,
    pub subsystems: String,
    pub ro: bool,
    pub phy_sec: u32,
    pub log_sec: u32,
    pub rm: bool,
    pub ptype: Option<String>,
    pub children: Vec<LsblkChild>,
    pub label: Option<String>,
    pub vendor: Option<String>,
    pub model: Option<String>,
    pub hotplug: bool,
}

/// The number of bytes a size stands for, if it can be read.
pub open spec fn spec_fs_value(f: FsSize) -> Option<u64> {
    match f {
        FsSize::Text(s) => spec_parse_u64(s@),
        FsSize::Bytes(v) => Some(v),
    }
}

/// An optional size that is absent or readable.
pub open spec fn fs_size_ok(f: Option<FsSize>) -> bool {
    match f {
        Some(x) => spec_fs_value(x) is Some,
        None => true,
    }
}

/// The bytes an optional size stands for.
pub open spec fn spec_opt_fs_value(f: Option<FsSize>) -> Option<u64> {
    match f {
        Some(x) => spec_fs_value(x),
        None => None,
    }
}

/// A child whose sizes can be read.
pub open spec fn child_ok(c: LsblkChild) -> bool {
    fs_size_ok(c.fssize) && fs_size_ok(c.fsavail)
}

/// A record that is well formed: all of its children can be read.
pub open spec fn record_ok(d: LsblkDevice) -> bool {
    forall|i: int| 0 <= i < d.children@.len() ==> child_ok(#[trigger] d.children@[i])
}

/// `m` is the mountpoint that child `c` describes.
pub open spec fn mount_describes(c: LsblkChild, m: MountPoint) -> bool {
    &&& m.path@ == opt_chars(c.mountpoint)
    &&& m.label == (if c.label is Some { c.label } else { c.partlabel })
    &&& m.total_bytes == spec_opt_fs_value(c.fssize)
    &&& m.available_bytes == spec_opt_fs_value(c.fsavail)
}

/// A device that sits on no physical block-storage subsystem is virtual.
pub open spec fn spec_is_virtual(d: LsblkDevice) -> bool {
    !spec_contains(d.subsystems@, "block"@)
}

/// Removable: the kernel says so, it is hot-pluggable, or it is virtual.
pub open spec fn spec_is_removable(d: LsblkDevice) -> bool {
    d.rm || d.hotplug || spec_is_virtual(d)
}

/// A system drive is a fixed, real disk.
pub open spec fn spec_is_system(d: LsblkDevice) -> bool {
    !(spec_is_removable(d) || spec_is_virtual(d))
}

/// A transport name that counts as SCSI-attached, in any case.
pub open spec fn is_scsi_transport(t: Seq<char>) -> bool {
    spec_eq_ignore_ascii_case(t, "SATA"@) || spec_eq_ignore_ascii_case(t, "SCSI"@)
        || spec_eq_ignore_ascii_case(t, "ATA"@) || spec_eq_ignore_ascii_case(t, "IDE"@)
        || spec_eq_ignore_ascii_case(t, "PCI"@)
}

/// Attached through SCSI: the transport is SATA, SCSI, ATA, IDE or PCI.
pub open spec fn spec_is_scsi(d: LsblkDevice) -> bool {
    d.tran matches Some(t) && is_scsi_transport(t@)
}

/// Label, vendor and model, in that order, with absent parts left out.
pub open spec fn spec_description(d: LsblkDevice) -> Seq<char> {
    opt_chars(d.label) + opt_chars(d.vendor) + opt_chars(d.model)
}

/// The transport name that the descriptor reports before upper-casing.
pub open spec fn spec_transport(d: LsblkDevice) -> Seq<char> {
    match d.tran {
        Some(t) => t@,
        None => "UNKNOWN"@,
    }
}

/// `x` is the descriptor of record `d`.
pub open spec fn describes(d: LsblkDevice, x: DeviceDescriptor) -> bool {
    &&& x.enumerator@ == "lsblk:json"@
    &&& x.bus_type matches Some(b) && b@ == upper_of(spec_transport(d))
    &&& x.bus_version is None
    &&& x.device@ == d.name@
    &&& x.device_path is None
    &&& x.raw@ == d.kname@
    &&& x.description@ == spec_description(d)
    &&& x.error is None
    &&& x.partition_table_type == d.ptype
    &&& x.size == d.size
    &&& x.block_size == d.phy_sec
    &&& x.logical_block_size == d.log_sec
    &&& x.mountpoints@.len() == d.children@.len()
    &&& (forall|i: int|
        0 <= i < d.children@.len() ==> mount_describes(
            #[trigger] d.children@[i],
            x.mountpoints@[i],
        ))
    &&& x.mountpoint_labels@.len() == 0
    &&& x.is_readonly == d.ro
    &&& x.is_system == spec_is_system(d)
    &&& !x.is_card
    &&& x.is_scsi == spec_is_scsi(d)
    &&& x.is_usb == spec_contains(d.subsystems@, "usb"@)
    &&& x.is_virtual == spec_is_virtual(d)
    &&& x.is_removable == spec_is_removable(d)
    &&& x.is_uas is None
}

impl LsblkDevice {
    /// Whether the device sits on no physical block-storage subsystem.
    pub fn is_virtual(&self) -> (r: bool)
        ensures
            r == spec_is_virtual(*self),
    {
        !contains(self.subsystems.as_str(), "block")
    }

    /// Whether the device can be removed from the running system.
    pub fn is_removable(&self) -> (r: bool)
        ensures
            r == spec_is_removable(*self),
    {
        self.rm || self.hotplug || self.is_virtual()
    }

    /// Whether the device is a fixed, real disk.
    pub fn is_system(&self) -> (r: bool)
        ensures
            r == spec_is_system(*self),
    {
        !(self.is_removable() || self.is_virtual())
    }

    /// Whether the device's transport is SATA, SCSI, ATA, IDE or PCI, in any case.
    pub fn is_scsi(&self) -> (r: bool)
        ensures
            r == spec_is_scsi(*self),
    {
        match &self.tran {
            Some(t) => {
                let t = t.as_str();
                eq_ignore_ascii_case(t, "SATA") || eq_ignore_ascii_case(t, "SCSI")
                    || eq_ignore_ascii_case(t, "ATA") || eq_ignore_ascii_case(t, "IDE")
                    || eq_ignore_ascii_case(t, "PCI")
            },
            None => false,
        }
    }

    /// Label, vendor and model joined, leaving out the absent ones.
    pub fn description(&self) -> (r: String)
        ensures
            r@ == spec_description(*self),
    {
        let mut r = String::new();
        if let Some(l) = &self.label {
            r.append(l.as_str());
        }
        if let Some(v) = &self.vendor {
            r.append(v.as_str());
        }
        if let Some(m) = &self.model {
            r.append(m.as_str());
        }
        assert(r@ =~= spec_description(*self));
        r
    }
}

/// The bytes a size stands for; `None` where a string holds no number.
pub fn fs_value(f: &FsSize) -> (r: Option<u64>)
    ensures
        r == spec_fs_value(*f),
{
    match f {
        FsSize::Text(s) => parse_u64(s.as_str()),
        FsSize::Bytes(v) => Some(*v),
    }
}

/// The mountpoint a child describes, or `None` where one of its sizes cannot be read.
pub fn mount_point_from_child(c: &LsblkChild) -> (r: Option<MountPoint>)
    ensures
        r is Some <==> child_ok(*c),
        r matches Some(m) ==> mount_describes(*c, m),
{
    let total = match &c.fssize {
        Some(f) => {
            let v = fs_value(f);
            if v.is_none() {
                return None;
            }
            v
        },
        None => None,
    };
    let available = match &c.fsavail {
        Some(f) => {
            let v = fs_value(f);
            if v.is_none() {
                return None;
            }
            v
        },
        None => None,
    };
    let path = match &c.mountpoint {
        Some(p) => p.clone(),
        None => String::new(),
    };
    let label = if c.label.is_some() {
        clone_opt(&c.label)
    } else {
        clone_opt(&c.partlabel)
    };
    Some(MountPoint { path, label, total_bytes: total, available_bytes: available })
}

/// The descriptor of one `lsblk` record, or `None` where the record is malformed.
pub fn descriptor_from_lsblk(d: &LsblkDevice) -> (r: Option<DeviceDescriptor>)
    ensures
        r is Some <==> record_ok(*d),
        r matches Some(x) ==> describes(*d, x),
{
    let mut mountpoints: Vec<MountPoint> = Vec::new();
    let mut i: usize = 0;
    while i < d.children.len()
        invariant
            i <= d.children@.len(),
            mountpoints@.len() == i,
            forall|k: int| 0 <= k < i ==> child_ok(#[trigger] d.children@[k]),
            forall|k: int|
                0 <= k < i ==> mount_describes(#[trigger] d.children@[k], mountpoints@[k]),
        decreases d.children@.len() - i,
    {
        match mount_point_from_child(&d.children[i]) {
            Some(m) => mountpoints.push(m),
            None => {
                return None;
            },
        }
        i += 1;
    }
    let tran = match &d.tran {
        Some(t) => to_upper(t.as_str()),
        None => to_upper("UNKNOWN"),
    };
    let is_scsi = d.is_scsi();
    let description = d.description();
    let is_virtual = d.is_virtual();
    let is_removable = d.is_removable();
    let is_system = d.is_system();
    let x = DeviceDescriptor {
        enumerator: String::from_str("lsblk:json"),
        bus_type: Some(tran),
        bus_version: None,
        device: d.name.clone(),
        device_path: None,
        raw: d.kname.clone(),
        description,
        error: None,
        partition_table_type: clone_opt(&d.ptype),
        size: d.size,
        block_size: d.phy_sec,
        logical_block_size: d.log_sec,
        mountpoints,
        mountpoint_labels: Vec::new(),
        is_readonly: d.ro,
        is_system,
        is_card: false,
        is_scsi,
        is_usb: contains(d.subsystems.as_str(), "usb"),
        is_virtual,
        is_removable,
        is_uas: None,
    };
    Some(x)
}

/// How many of the records are well formed.
pub open spec fn count_ok(s: Seq<LsblkDevice>) -> nat
    decreases s.len(),
{
    if s.len() == 0 {
        0
    } else {
        count_ok(s.drop_last()) + if record_ok(s.last()) {
            1nat
        } else {
            0nat
        }
    }
}

/// The position in `s` of its `j`-th well-formed record.
pub open spec fn ok_index(s: Seq<LsblkDevice>, j: int) -> int
    decreases s.len(),
{
    if s.len() == 0 {
        0
    } else if record_ok(s.last()) && j == count_ok(s.drop_last()) {
        s.len() - 1
    } else {
        ok_index(s.drop_last(), j)
    }
}

/// `x` is the descriptor of the `j`-th well-formed record among `prefix`, a
/// prefix of `records`.
pub open spec fn placed(
    records: Seq<LsblkDevice>,
    prefix: Seq<LsblkDevice>,
    x: DeviceDescriptor,
    j: int,
) -> bool {
    &&& 0 <= ok_index(prefix, j) < prefix.len()
    &&& describes(records[ok_index(prefix, j)], x)
}

/// The descriptors of all well-formed records, in order; a malformed record is
/// skipped and does not fail the others.
pub fn descriptors_from_lsblk(records: &Vec<LsblkDevice>) -> (r: Vec<DeviceDescriptor>)
    ensures
        r@.len() == count_ok(records@),
        forall|j: int| 0 <= j < r@.len() ==> placed(records@, records@, #[trigger] r@[j], j),
{
    let mut r: Vec<DeviceDescriptor> = Vec::new();
    let mut i: usize = 0;
    while i < records.len()
        invariant
            i <= records@.len(),
            r@.len() == count_ok(records@.subrange(0, i as int)),
            forall|j: int|
                0 <= j < r@.len() ==> placed(
                    records@,
                    records@.subrange(0, i as int),
                    #[trigger] r@[j],
                    j,
                ),
        decreases records@.len() - i,
    {
        let ghost prev = records@.subrange(0, i as int);
        let ghost next = records@.subrange(0, i + 1);
        assert(next.drop_last() =~= prev);
        assert(next.last() == records@[i as int]);
        let ghost old_r = r@;
        match descriptor_from_lsblk(&records[i]) {
            Some(x) => {
                r.push(x);
            },
            None => {},
        }
        assert forall|j: int| 0 <= j < r@.len() implies placed(records@, next, #[trigger] r@[j], j) by {
            if j < count_ok(prev) {
                assert(ok_index(next, j) == ok_index(prev, j));
                assert(old_r[j] == r@[j]);
                assert(placed(records@, prev, old_r[j], j));
            } else {
                assert(record_ok(records@[i as int]));
                assert(ok_index(next, j) == i);
            }
        }
        i += 1;
    }
    assert(records@.subrange(0, records@.len() as int) =~= records@);
    r
}

/// A hot-pluggable device is classified removable and never a system drive.
pub proof fn lemma_hotplug_is_removable(d: LsblkDevice, x: DeviceDescriptor)
    requires
        describes(d, x),
        d.hotplug,
    ensures
        x.is_removable,
        !x.is_system,
{
}

/// A device that is neither hot-pluggable nor marked removable, and sits on a
/// block-storage subsystem, is classified a system drive.
pub proof fn lemma_fixed_disk_is_system(d: LsblkDevice, x: DeviceDescriptor)
    requires
        describes(d, x),
        !d.hotplug,
        !d.rm,
        !x.is_virtual,
    ensures
        x.is_system,
        !x.is_removable,
{
}

} // verus!
