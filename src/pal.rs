//! Classification rules of the Windows and macOS device enumerations, applied
//! to the plain values that each platform's API reports.
use vstd::prelude::*;

use crate::device::{DeviceDescriptor, MountPoint};
use crate::lsblk::is_scsi_transport;
use crate::text::{clone_opt, contains, eq_ignore_ascii_case, opt_chars, spec_contains, str_eq};

verus! {

/// The name of a Windows storage bus type (`STORAGE_BUS_TYPE`).
pub open spec fn spec_bus_type_name(t: i32) -> Seq<char> {
    if t == 0 {
        "UNKNOWN"@
    } else if t == 1 {
        "SCSI"@
    } else if t == 2 {
        "ATAPI"@
    } else if t == 3 {
        "ATA"@
    } else if t == 4 {
        "1394"@
    } else if t == 5 {
        "SSA"@
    } else if t == 6 {
        "FIBRE"@
    } else if t == 7 {
        "USB"@
    } else if t == 8 {
        "RAID"@
    } else if t == 9 {
        "iSCSI"@
    } else if t == 10 {
        "SAS"@
    } else if t == 11 {
        "SATA"@
    } else if t == 12 {
        "SDCARD"@
    } else if t == 13 {
        "MMC"@
    } else if t == 14 {
        "VIRTUAL"@
    } else if t == 15 {
        "FILEBACKEDVIRTUAL"@
    } else if t == 17 {
        "NVME"@
    } else if t == 18 {
        "SCM"@
    } else if t == 19 {
        "UFS"@
    } else {
        "INVALID"@
    }
}

/// The name of a Windows storage bus type.
pub fn get_bus_type(bus_type: i32) -> (r: &'static str)
    ensures
        r@ == spec_bus_type_name(bus_type),
{
    match bus_type {
        0 => "UNKNOWN",
        1 => "SCSI",
        2 => "ATAPI",
        3 => "ATA",
        4 => "1394",
        5 => "SSA",
        6 => "FIBRE",
        7 => "USB",
        8 => "RAID",
        9 => "iSCSI",
        10 => "SAS",
        11 => "SATA",
        12 => "SDCARD",
        13 => "MMC",
        14 => "VIRTUAL",
        15 => "FILEBACKEDVIRTUAL",
        17 => "NVME",
        18 => "SCM",
        19 => "UFS",
        _ => "INVALID",
    }
}

/// Windows device enumerators of USB mass storage.
pub open spec fn usb_enumerators() -> Seq<Seq<char>> {
    seq![
        "USBSTOR"@,
        "UASPSTOR"@,
        "VUSBSTOR"@,
        "RTUSER"@,
        "CMIUCR"@,
        "EUCR"@,
        "ETRONSTOR"@,
        "ASUSSTPT"@,
    ]
}

/// Whether a Windows device enumerator is one of USB mass storage.
pub fn is_usb_drive(enumerator_name: &str) -> (r: bool)
    ensures
        r == usb_enumerators().contains(enumerator_name@),
{
    let names = vec![
        "USBSTOR",
        "UASPSTOR",
        "VUSBSTOR",
        "RTUSER",
        "CMIUCR",
        "EUCR",
        "ETRONSTOR",
        "ASUSSTPT",
    ];
    let ghost views = names@.map_values(|s: &str| s@);
    assert(views =~= usb_enumerators());
    let mut i: usize = 0;
    while i < names.len()
        invariant
            i <= names@.len(),
            views == names@.map_values(|s: &str| s@),
            views == usb_enumerators(),
            forall|k: int| 0 <= k < i ==> views[k] != enumerator_name@,
        decreases names@.len() - i,
    {
        if str_eq(names[i], enumerator_name) {
            assert(views[i as int] == enumerator_name@);
            return true;
        }
        i += 1;
    }
    false
}

/// Some installation path of the running OS contains a mountpoint of the device.
pub open spec fn spec_hosts_system(d: DeviceDescriptor, system_paths: Seq<String>) -> bool {
    exists|k: int, m: int|
        0 <= k < system_paths.len() && 0 <= m < d.mountpoints@.len() && spec_contains(
            #[trigger] system_paths[k]@,
            (#[trigger] d.mountpoints@[m]).path@,
        )
}

/// Whether the device holds the running OS: some of `system_paths` (the
/// values of `windir` and `ProgramFiles`) contains one of its mountpoints.
pub fn is_system_device(device: &DeviceDescriptor, system_paths: &Vec<String>) -> (r: bool)
    ensures
        r == spec_hosts_system(*device, system_paths@),
{
    let mut k: usize = 0;
    while k < system_paths.len()
        invariant
            k <= system_paths@.len(),
            forall|a: int, m: int|
                0 <= a < k && 0 <= m < device.mountpoints@.len() ==> !spec_contains(
                    #[trigger] system_paths@[a]@,
                    (#[trigger] device.mountpoints@[m]).path@,
                ),
        decreases system_paths@.len() - k,
    {
        let mut m: usize = 0;
        while m < device.mountpoints.len()
            invariant
                k < system_paths@.len(),
                m <= device.mountpoints@.len(),
                forall|a: int, b: int|
                    0 <= a < k && 0 <= b < device.mountpoints@.len() ==> !spec_contains(
                        #[trigger] system_paths@[a]@,
                        (#[trigger] device.mountpoints@[b]).path@,
                    ),
                forall|b: int|
                    0 <= b < m ==> !spec_contains(
                        system_paths@[k as int]@,
                        (#[trigger] device.mountpoints@[b]).path@,
                    ),
            decreases device.mountpoints@.len() - m,
        {
            if contains(system_paths[k].as_str(), device.mountpoints[m].path.as_str()) {
                return true;
            }
            m += 1;
        }
        k += 1;
    }
    false
}

/// The bus type a descriptor reports, `UNKNOWN` where it has none.
pub open spec fn spec_bus_or_unknown(d: DeviceDescriptor) -> Seq<char> {
    match d.bus_type {
        Some(b) => b@,
        None => "UNKNOWN"@,
    }
}

/// The flags that the Windows enumeration derives once a device's details are in.
pub open spec fn windows_classified(old: DeviceDescriptor, new: DeviceDescriptor, system_paths: Seq<String>) -> bool {
    let bt = spec_bus_or_unknown(old);
    &&& new.is_card == (bt == "SDCARD"@ || bt == "MMC"@)
    &&& new.is_uas == Some(old.enumerator@ == "SCSI"@ && bt == "USB"@)
    &&& new.is_virtual == (old.is_virtual || bt == "VIRTUAL"@ || bt == "FILEBACKEDVIRTUAL"@)
    &&& new.is_system == ((!old.is_removable && !new.is_virtual) || spec_hosts_system(old, system_paths))
    &&& new == DeviceDescriptor {
        is_card: new.is_card,
        is_uas: new.is_uas,
        is_virtual: new.is_virtual,
        is_system: new.is_system,
        ..old
    }
}

/// Sets the card, UAS, virtual and system flags of a device that Windows
/// enumerated, from its bus type, enumerator and mountpoints. A device is a
/// system drive when it is neither removable nor virtual, or when it holds the
/// running OS.
pub fn classify_windows_device(item: &mut DeviceDescriptor, system_paths: &Vec<String>)
    ensures
        windows_classified(*old(item), *final(item), system_paths@),
{
    let unknown = "UNKNOWN";
    let is_card;
    let is_uas;
    let is_virtual;
    {
        let bt: &str = match &item.bus_type {
            Some(b) => b.as_str(),
            None => unknown,
        };
        is_card = str_eq(bt, "SDCARD") || str_eq(bt, "MMC");
        is_uas = str_eq(item.enumerator.as_str(), "SCSI") && str_eq(bt, "USB");
        is_virtual = item.is_virtual || str_eq(bt, "VIRTUAL") || str_eq(bt, "FILEBACKEDVIRTUAL");
    }
    let is_system = (!item.is_removable && !is_virtual) || is_system_device(item, system_paths);
    item.is_card = is_card;
    item.is_uas = Some(is_uas);
    item.is_virtual = is_virtual;
    item.is_system = is_system;
}

/// What macOS Disk Arbitration describes of a whole disk.
#[derive(Clone, Debug)]
pub struct DiskDescription {
    pub bsd_name: String,
    pub device_protocol: Option<String>,
    pub block_size: Option<u32>,
    pub is_removable: bool,
    pub is_ejectable: bool,
    pub is_writable: bool,
    pub media_content: Option<String>,
    pub bus_path: Option<String>,
    pub media_name: Option<String>,
    pub media_size: Option<u64>,
    pub media_icon: Option<String>,
}

/// The partition table kind that a media content names.
pub open spec fn spec_table_kind(content: Option<String>) -> Option<Seq<char>> {
    match content {
        Some(c) => if c@ == "GUID_partition_scheme"@ {
            Some("gpt"@)
        } else if c@ == "FDisk_partition_scheme"@ {
            Some("mbr"@)
        } else {
            None
        },
        None => None,
    }
}

/// The view of an optional string.
pub open spec fn opt_view(o: Option<String>) -> Option<Seq<char>> {
    match o {
        Some(s) => Some(s@),
        None => None,
    }
}

/// `x` is the descriptor of the disk that `d` describes.
pub open spec fn mac_describes(d: DiskDescription, x: DeviceDescriptor) -> bool {
    &&& x.enumerator@ == "DiskArbitration"@
    &&& opt_view(x.bus_type) == opt_view(d.device_protocol)
    &&& x.bus_version is None
    &&& x.device@ == "/dev/"@ + d.bsd_name@
    &&& opt_view(x.device_path) == opt_view(d.bus_path)
    &&& x.raw@ == "/dev/r"@ + d.bsd_name@
    &&& x.description@ == opt_chars(d.media_name)
    &&& x.error is None
    &&& opt_view(x.partition_table_type) == spec_table_kind(d.media_content)
    &&& x.size == d.media_size
    &&& x.block_size == match d.block_size {
        Some(b) => b,
        None => crate::device::DEFAULT_BLOCK_SIZE,
    }
    &&& x.logical_block_size == x.block_size
    &&& x.mountpoints@.len() == 0
    &&& x.mountpoint_labels@.len() == 0
    &&& x.is_readonly == !d.is_writable
    &&& x.is_system == (!x.is_removable && !x.is_virtual)
    &&& x.is_virtual == (d.device_protocol matches Some(p) && p@ == "Virtual Interface"@)
    &&& x.is_removable == (d.is_removable || d.is_ejectable)
    &&& x.is_card == (d.media_icon matches Some(i) && i@ == "SD.icns"@)
    &&& x.is_scsi == (d.device_protocol matches Some(p) && is_scsi_transport(p@))
    &&& !x.is_usb
    &&& x.is_uas is None
}

fn is_scsi_protocol(p: &str) -> (r: bool)
    ensures
        r == is_scsi_transport(p@),
{
    eq_ignore_ascii_case(p, "SATA") || eq_ignore_ascii_case(p, "SCSI") || eq_ignore_ascii_case(
        p,
        "ATA",
    ) || eq_ignore_ascii_case(p, "IDE") || eq_ignore_ascii_case(p, "PCI")
}

fn prefixed(prefix: &str, name: &str) -> (r: String)
    ensures
        r@ == prefix@ + name@,
{
    let mut r = String::from_str(prefix);
    r.append(name);
    r
}

impl DeviceDescriptor {
    /// The descriptor of a whole disk that macOS describes.
    pub fn from_disk_description(d: &DiskDescription) -> (r: DeviceDescriptor)
        ensures
            mac_describes(*d, r),
    {
        let mut x = DeviceDescriptor::default();
        if let Some(c) = &d.media_content {
            if str_eq(c.as_str(), "GUID_partition_scheme") {
                x.partition_table_type = Some(String::from_str("gpt"));
            } else if str_eq(c.as_str(), "FDisk_partition_scheme") {
                x.partition_table_type = Some(String::from_str("mbr"));
            }
        }
        x.enumerator = String::from_str("DiskArbitration");
        x.bus_type = clone_opt(&d.device_protocol);
        x.device = prefixed("/dev/", d.bsd_name.as_str());
        x.device_path = clone_opt(&d.bus_path);
        x.raw = prefixed("/dev/r", d.bsd_name.as_str());
        x.description = match &d.media_name {
            Some(n) => n.clone(),
            None => String::new(),
        };
        if let Some(bs) = d.block_size {
            x.block_size = bs;
            x.logical_block_size = bs;
        }
        x.size = d.media_size;
        x.is_readonly = !d.is_writable;
        x.is_virtual = match &d.device_protocol {
            Some(p) => str_eq(p.as_str(), "Virtual Interface"),
            None => false,
        };
        x.is_removable = d.is_removable || d.is_ejectable;
        x.is_card = match &d.media_icon {
            Some(i) => str_eq(i.as_str(), "SD.icns"),
            None => false,
        };
        x.is_scsi = match &d.device_protocol {
            Some(p) => is_scsi_protocol(p.as_str()),
            None => false,
        };
        x.is_system = !x.is_removable && !x.is_virtual;
        x.is_uas = None;
        x
    }
}

/// A BSD name of a partition: `disk`, digits, `s`, digits (`disk0s1`).
pub open spec fn spec_is_partition_name(n: Seq<char>) -> bool {
    exists|k: int|
        5 <= k < n.len() - 1 && n.subrange(0, 4) == "disk"@ && n[k] == 's' && crate::text::all_digits(
            n.subrange(4, k),
        ) && crate::text::all_digits(n.subrange(k + 1, n.len() as int))
}

/// Whether a BSD name names a partition rather than a whole disk.
pub fn is_partition_name(name: &str) -> (r: bool)
    ensures
        r == spec_is_partition_name(name@),
{
    let n = name.unicode_len();
    proof {
        reveal_strlit("disk");
    }
    if n < 4 || !str_eq(name.substring_char(0, 4), "disk") {
        return false;
    }
    assert(name@.subrange(0, 4) == "disk"@);
    // digits up to the first non-digit, which must be the `s`
    let mut k: usize = 4;
    while k < n && '0' <= name.get_char(k) && name.get_char(k) <= '9'
        invariant
            n == name@.len(),
            4 <= k <= n,
            crate::text::all_digits(name@.subrange(4, k as int)),
        decreases n - k,
    {
        assert(name@.subrange(4, k + 1) =~= name@.subrange(4, k as int).push(name@[k as int]));
        k += 1;
    }
    if k == 4 || k >= n - 1 || name.get_char(k) != 's' {
        proof {
            if spec_is_partition_name(name@) {
                let j = choose|j: int|
                    5 <= j < name@.len() - 1 && name@.subrange(0, 4) == "disk"@ && name@[j] == 's'
                        && crate::text::all_digits(name@.subrange(4, j)) && crate::text::all_digits(
                        name@.subrange(j + 1, name@.len() as int),
                    );
                if j < k {
                    assert(name@.subrange(4, k as int)[j - 4] == name@[j]);
                } else if j > k {
                    assert(name@.subrange(4, j)[k - 4] == name@[k as int]);
                }
            }
        }
        return false;
    }
    let mut i: usize = k + 1;
    while i < n
        invariant
            n == name@.len(),
            4 < k < n - 1,
            name@[k as int] == 's',
            name@.subrange(0, 4) == "disk"@,
            crate::text::all_digits(name@.subrange(4, k as int)),
            k + 1 <= i <= n,
            crate::text::all_digits(name@.subrange(k + 1, i as int)),
        decreases n - i,
    {
        let c = name.get_char(i);
        if !('0' <= c && c <= '9') {
            proof {
                if spec_is_partition_name(name@) {
                    let j = choose|j: int|
                        5 <= j < name@.len() - 1 && name@.subrange(0, 4) == "disk"@ && name@[j]
                            == 's' && crate::text::all_digits(name@.subrange(4, j))
                            && crate::text::all_digits(name@.subrange(j + 1, name@.len() as int));
                    if j < k {
                        assert(name@.subrange(4, k as int)[j - 4] == name@[j]);
                    } else if j > k {
                        assert(name@.subrange(4, j)[k - 4] == name@[k as int]);
                    } else {
                        assert(name@.subrange(j + 1, name@.len() as int)[i - j - 1] == name@[i as int]);
                    }
                }
            }
            return false;
        }
        assert(name@.subrange(k + 1, i + 1) =~= name@.subrange(k + 1, i as int).push(c));
        i += 1;
    }
    assert(name@.subrange(0, 4) =~= "disk"@);
    true
}

/// The characters of `r` before its first `s`.
pub open spec fn before_s(r: Seq<char>) -> Seq<char>
    decreases r.len(),
{
    if r.len() == 0 || r[0] == 's' {
        Seq::empty()
    } else {
        seq![r[0]] + before_s(r.drop_first())
    }
}

/// The whole-disk BSD name of partition `n`: `disk` and what follows up to the
/// first `s` (`disk0s1` is on `disk0`); a name that does not start with `disk`
/// stands for itself.
pub open spec fn spec_disk_of(n: Seq<char>) -> Seq<char> {
    if n.len() >= 4 && n.subrange(0, 4) == "disk"@ {
        n.subrange(0, 4) + before_s(n.subrange(4, n.len() as int))
    } else {
        n
    }
}

proof fn lemma_before_s(r: Seq<char>, k: int)
    requires
        0 <= k <= r.len(),
        k == r.len() || r[k] == 's',
        forall|j: int| 0 <= j < k ==> r[j] != 's',
    ensures
        before_s(r) == r.subrange(0, k),
    decreases k,
{
    if k == 0 {
        assert(r.subrange(0, 0) =~= Seq::<char>::empty());
    } else {
        let t = r.drop_first();
        lemma_before_s(t, k - 1);
        assert(seq![r[0]] + t.subrange(0, k - 1) =~= r.subrange(0, k));
    }
}

/// The whole-disk BSD name of a partition's BSD name.
pub fn disk_of_partition(name: &str) -> (r: String)
    ensures
        r@ == spec_disk_of(name@),
{
    let n = name.unicode_len();
    proof {
        reveal_strlit("disk");
    }
    if n < 4 || !str_eq(name.substring_char(0, 4), "disk") {
        return String::from_str(name);
    }
    let mut k: usize = 4;
    while k < n && name.get_char(k) != 's'
        invariant
            n == name@.len(),
            4 <= k <= n,
            forall|j: int| 4 <= j < k ==> name@[j] != 's',
        decreases n - k,
    {
        k += 1;
    }
    proof {
        let r = name@.subrange(4, n as int);
        assert forall|j: int| 0 <= j < k - 4 implies r[j] != 's' by {
            assert(r[j] == name@[j + 4]);
        }
        if k < n {
            assert(r[k - 4] == name@[k as int]);
        }
        lemma_before_s(r, k - 4);
        assert(name@.subrange(0, 4) + r.subrange(0, k - 4) =~= name@.subrange(0, k as int));
    }
    String::from_str(name.substring_char(0, k))
}

/// The position of the first device at `path`, if any.
pub open spec fn spec_device_at(v: Seq<DeviceDescriptor>, path: Seq<char>) -> Option<int> {
    if exists|i: int| 0 <= i < v.len() && (#[trigger] v[i]).device@ == path {
        Some(
            choose|i: int|
                0 <= i < v.len() && (#[trigger] v[i]).device@ == path && forall|j: int|
                    0 <= j < i ==> (#[trigger] v[j]).device@ != path,
        )
    } else {
        None
    }
}

/// Records a mounted volume on the disk that holds it: the volume of partition
/// `partition_bsd_name`, mounted at `mount_path` with label `label`, is added to
/// the first device at `/dev/<disk>`. A volume of no listed disk is ignored.
pub fn attach_volume(
    devices: &mut Vec<DeviceDescriptor>,
    partition_bsd_name: &str,
    mount_path: &str,
    label: String,
)
    ensures
        ({
            let p = "/dev/"@ + spec_disk_of(partition_bsd_name@);
            match spec_device_at(old(devices)@, p) {
                None => final(devices)@ == old(devices)@,
                Some(i) => {
                    &&& final(devices)@.len() == old(devices)@.len()
                    &&& forall|j: int|
                        0 <= j < old(devices)@.len() && j != i ==> final(devices)@[j] == old(
                            devices,
                        )@[j]
                    &&& final(devices)@[i] == (DeviceDescriptor {
                        mountpoints: final(devices)@[i].mountpoints,
                        mountpoint_labels: final(devices)@[i].mountpoint_labels,
                        ..old(devices)@[i]
                    })
                    &&& final(devices)@[i].mountpoints@.len() == old(devices)@[i].mountpoints@.len() + 1
                    &&& final(devices)@[i].mountpoints@.drop_last() == old(devices)@[i].mountpoints@
                    &&& final(devices)@[i].mountpoints@.last().path@ == mount_path@
                    &&& final(devices)@[i].mountpoints@.last().label is None
                    &&& final(devices)@[i].mountpoint_labels@ == old(devices)@[i].mountpoint_labels@.push(label)
                },
            }
        }),
{
    let disk = disk_of_partition(partition_bsd_name);
    let mut path = String::from_str("/dev/");
    path.append(disk.as_str());
    match find_device(devices, path.as_str()) {
        None => {},
        Some(i) => {
            let ghost old_v = devices@;
            let mut d = devices.remove(i);
            add_volume(&mut d, mount_path, label);
            devices.insert(i, d);
            assert forall|j: int| 0 <= j < old_v.len() && j != i implies devices@[j] == old_v[j] by {
                if j < i {
                } else {
                }
            }
        },
    }
}

/// The position of the first device at `path`.
fn find_device(devices: &Vec<DeviceDescriptor>, path: &str) -> (r: Option<usize>)
    ensures
        r matches Some(i) ==> spec_device_at(devices@, path@) == Some(i as int) && i < devices@.len(),
        r is None ==> spec_device_at(devices@, path@) is None,
{
    let mut i: usize = 0;
    while i < devices.len()
        invariant
            i <= devices@.len(),
            forall|j: int| 0 <= j < i ==> (#[trigger] devices@[j]).device@ != path@,
        decreases devices@.len() - i,
    {
        if str_eq(devices[i].device.as_str(), path) {
            proof {
                let ci = spec_device_at(devices@, path@).unwrap();
                if ci > i {
                    assert(devices@[i as int].device@ == path@);
                }
            }
            return Some(i);
        }
        i += 1;
    }
    None
}

/// Adds a mounted volume to a device.
fn add_volume(d: &mut DeviceDescriptor, mount_path: &str, label: String)
    ensures
        *final(d) == (DeviceDescriptor {
            mountpoints: final(d).mountpoints,
            mountpoint_labels: final(d).mountpoint_labels,
            ..*old(d)
        }),
        final(d).mountpoints@.len() == old(d).mountpoints@.len() + 1,
        final(d).mountpoints@.drop_last() == old(d).mountpoints@,
        final(d).mountpoints@.last().path@ == mount_path@,
        final(d).mountpoints@.last().label is None,
        final(d).mountpoint_labels@ == old(d).mountpoint_labels@.push(label),
{
    d.mountpoints.push(MountPoint::new(mount_path));
    d.mountpoint_labels.push(label);
    assert(d.mountpoints@.drop_last() =~= old(d).mountpoints@);
}

/// Windows drive type of a removable volume (`DRIVE_REMOVABLE`).
pub const DRIVE_REMOVABLE: u32 = 2;

/// Windows drive type of a fixed volume (`DRIVE_FIXED`).
pub const DRIVE_FIXED: u32 = 3;

/// What Windows reports of one lettered volume.
#[derive(Clone, Copy, Debug, PartialEq, Eq, Structural)]
pub struct VolumeInfo {
    pub letter: char,
    pub drive_type: u32,
    /// The number of the physical device that holds the volume, where it can be read.
    pub device_number: Option<u32>,
    pub sectors_per_cluster: u32,
    pub bytes_per_sector: u32,
    pub free_clusters: u32,
    pub total_clusters: u32,
}

/// A product of sizes, saturating at the largest `u64`.
pub open spec fn sat_mul(a: int, b: int) -> u64 {
    if a * b <= u64::MAX {
        (a * b) as u64
    } else {
        u64::MAX
    }
}

fn saturating_product(a: u64, b: u64) -> (r: u64)
    ensures
        r == sat_mul(a as int, b as int),
{
    match a.checked_mul(b) {
        Some(p) => p,
        None => u64::MAX,
    }
}

/// Whether volume `v` is a mountpoint of device `device_number`: a fixed or
/// removable volume that sits on that device.
pub open spec fn spec_volume_on(v: VolumeInfo, device_number: u32) -> bool {
    (v.drive_type == DRIVE_FIXED || v.drive_type == DRIVE_REMOVABLE) && v.device_number == Some(
        device_number,
    )
}

/// The mountpoint that volume `v` gives device `device_number`: its root
/// `<letter>:\`, with total and free bytes from its cluster counts. `None`
/// where the volume is of another kind or on another device.
pub fn windows_mount_point(v: VolumeInfo, device_number: u32) -> (r: Option<MountPoint>)
    ensures
        r is Some <==> spec_volume_on(v, device_number),
        r matches Some(m) ==> {
            &&& m.path@ == seq![v.letter, ':', '\\']
            &&& m.label is None
            &&& m.total_bytes == Some(
                sat_mul(v.sectors_per_cluster as int * v.bytes_per_sector as int, v.total_clusters as int),
            )
            &&& m.available_bytes == Some(
                sat_mul(v.sectors_per_cluster as int * v.bytes_per_sector as int, v.free_clusters as int),
            )
        },
{
    if !(v.drive_type == DRIVE_FIXED || v.drive_type == DRIVE_REMOVABLE) {
        return None;
    }
    match v.device_number {
        Some(n) if n == device_number => {},
        _ => {
            return None;
        },
    }
    assert(v.sectors_per_cluster as int * v.bytes_per_sector as int <= u64::MAX) by (nonlinear_arith)
        requires
            v.sectors_per_cluster <= u32::MAX,
            v.bytes_per_sector <= u32::MAX,
    ;
    let cluster = v.sectors_per_cluster as u64 * v.bytes_per_sector as u64;
    let mut path = String::new();
    crate::text::push_char(&mut path, v.letter);
    crate::text::push_char(&mut path, ':');
    crate::text::push_char(&mut path, '\\');
    assert(path@ =~= seq![v.letter, ':', '\\']);
    Some(
        MountPoint {
            path,
            label: None,
            total_bytes: Some(saturating_product(cluster, v.total_clusters as u64)),
            available_bytes: Some(saturating_product(cluster, v.free_clusters as u64)),
        },
    )
}

} // verus!
