//! SD card targets and the flashing of OS images to them, with optional
//! post-install customization.
use vstd::prelude::*;

use crate::customization::{
    spec_toml_files, Customization, FileWrite, RaspberryCustomization, SysconfCustomization,
};
use crate::device::DeviceDescriptor;
use crate::error::Error;
use crate::partition::{locate_boot_partition, ByteRange, GptTable};

verus! {

/// An SD card, as enumeration offers it.
#[derive(Clone, Debug)]
pub struct Device {
    pub name: String,
    pub path: String,
    pub size: u64,
}

/// Whether enumeration keeps a descriptor: all of them when not filtering,
/// else the removable, non-virtual ones.
pub open spec fn kept(d: DeviceDescriptor, filter: bool) -> bool {
    !filter || d.spec_is_flashable()
}

/// How many descriptors enumeration keeps.
pub open spec fn count_kept(s: Seq<DeviceDescriptor>, filter: bool) -> nat
    decreases s.len(),
{
    if s.len() == 0 {
        0
    } else {
        count_kept(s.drop_last(), filter) + if kept(s.last(), filter) {
            1nat
        } else {
            0nat
        }
    }
}

/// The position in `s` of the `j`-th kept descriptor.
pub open spec fn kept_index(s: Seq<DeviceDescriptor>, filter: bool, j: int) -> int
    decreases s.len(),
{
    if s.len() == 0 {
        0
    } else if kept(s.last(), filter) && j == count_kept(s.drop_last(), filter) {
        s.len() - 1
    } else {
        kept_index(s.drop_last(), filter, j)
    }
}

/// `x` is the SD card that descriptor `d` offers: named by its description,
/// at its raw path, with its size or 0 where it has none.
pub open spec fn offers(d: DeviceDescriptor, x: Device) -> bool {
    &&& x.name@ == d.description@
    &&& x.path@ == d.raw@
    &&& x.size == match d.size {
        Some(s) => s,
        None => 0,
    }
}

/// `x` is the card of the `j`-th kept descriptor among `prefix`, a prefix of `all`.
pub open spec fn offered_at(
    all: Seq<DeviceDescriptor>,
    prefix: Seq<DeviceDescriptor>,
    filter: bool,
    x: Device,
    j: int,
) -> bool {
    &&& 0 <= kept_index(prefix, filter, j) < prefix.len()
    &&& offers(all[kept_index(prefix, filter, j)], x)
}

/// The SD cards among enumerated devices: one for each kept descriptor, in
/// order. Enumeration reports each device once, so none is merged with another.
pub fn devices(descriptors: &Vec<DeviceDescriptor>, filter: bool) -> (r: Vec<Device>)
    ensures
        r@.len() == count_kept(descriptors@, filter),
        forall|j: int|
            0 <= j < r@.len() ==> offered_at(descriptors@, descriptors@, filter, #[trigger] r@[j], j),
{
    let mut r: Vec<Device> = Vec::new();
    let mut i: usize = 0;
    while i < descriptors.len()
        invariant
            i <= descriptors@.len(),
            r@.len() == count_kept(descriptors@.subrange(0, i as int), filter),
            forall|j: int|
                0 <= j < r@.len() ==> offered_at(
                    descriptors@,
                    descriptors@.subrange(0, i as int),
                    filter,
                    #[trigger] r@[j],
                    j,
                ),
        decreases descriptors@.len() - i,
    {
        let ghost prev = descriptors@.subrange(0, i as int);
        let ghost next = descriptors@.subrange(0, i + 1);
        assert(next.drop_last() =~= prev);
        assert(next.last() == descriptors@[i as int]);
        let ghost old_r = r@;
        let d = &descriptors[i];
        if !filter || d.is_flashable() {
            let size = match d.size {
                Some(s) => s,
                None => 0,
            };
            r.push(Device { name: d.description.clone(), path: d.raw.clone(), size });
        }
        assert forall|j: int| 0 <= j < r@.len() implies offered_at(
            descriptors@,
            next,
            filter,
            #[trigger] r@[j],
            j,
        ) by {
            if j < count_kept(prev, filter) {
                assert(kept_index(next, filter, j) == kept_index(prev, filter, j));
                assert(old_r[j] == r@[j]);
                assert(offered_at(descriptors@, prev, filter, old_r[j], j));
            } else {
                assert(kept_index(next, filter, j) == i);
            }
        }
        i += 1;
    }
    assert(descriptors@.subrange(0, descriptors@.len() as int) =~= descriptors@);
    r
}

/// An SD card target.
#[derive(Clone, Debug)]
pub struct Target {
    pub device: Device,
}

impl Target {
    /// The card's size in bytes.
    pub fn size(&self) -> (r: u64)
        ensures
            r == self.device.size,
    {
        self.device.size
    }

    /// The card's device path.
    pub fn path(&self) -> (r: &str)
        ensures
            r@ == self.device.path@,
    {
        self.device.path.as_str()
    }

    /// The identifier that names the card in scripts: its path.
    pub fn identifier(&self) -> (r: String)
        ensures
            r@ == self.device.path@,
    {
        self.device.path.clone()
    }

    /// The first card among `targets` whose path is `path`.
    pub fn find(targets: &Vec<Target>, path: &str) -> (r: Option<Target>)
        ensures
            r is Some <==> exists|i: int|
                0 <= i < targets@.len() && (#[trigger] targets@[i]).device.path@ == path@,
            r matches Some(t) ==> exists|i: int|
                0 <= i < targets@.len() && targets@[i].device.path@ == path@ && (forall|j: int|
                    0 <= j < i ==> (#[trigger] targets@[j]).device.path@ != path@)
                    && t.device.name == targets@[i].device.name && t.device.path
                    == targets@[i].device.path && t.device.size == targets@[i].device.size,
    {
        let mut i: usize = 0;
        while i < targets.len()
            invariant
                i <= targets@.len(),
                forall|k: int| 0 <= k < i ==> (#[trigger] targets@[k]).device.path@ != path@,
            decreases targets@.len() - i,
        {
            if crate::text::str_eq(targets[i].device.path.as_str(), path) {
                let t = Target {
                    device: Device {
                        name: targets[i].device.name.clone(),
                        path: targets[i].device.path.clone(),
                        size: targets[i].device.size,
                    },
                };
                return Some(t);
            }
            i += 1;
        }
        None
    }
}

/// Post-install customization of a Linux image on an SD card.
#[derive(Clone, Debug)]
pub struct FlashingSdLinuxConfig {
    pub customization: Option<Customization>,
}

impl FlashingSdLinuxConfig {
    /// Customization in the structured scheme.
    pub fn raspberry(customization: RaspberryCustomization) -> (r: Self)
        ensures
            r.customization == Some(Customization::Raspberry(customization)),
    {
        FlashingSdLinuxConfig { customization: Some(Customization::Raspberry(customization)) }
    }

    /// Customization in the line-oriented scheme.
    pub fn sysconfig(
        hostname: Option<String>,
        timezone: Option<String>,
        keymap: Option<String>,
        user: Option<(String, String)>,
        wifi: Option<(String, String)>,
        ssh: Option<String>,
        usb_enable_dhcp: Option<bool>,
    ) -> (r: Self)
        ensures
            r.customization == Some(
                Customization::Sysconf(
                    SysconfCustomization {
                        hostname,
                        timezone,
                        keymap,
                        user,
                        wifi,
                        ssh,
                        usb_enable_dhcp,
                    },
                ),
            ),
    {
        FlashingSdLinuxConfig {
            customization: Some(
                Customization::Sysconf(
                    SysconfCustomization {
                        hostname,
                        timezone,
                        keymap,
                        user,
                        wifi,
                        ssh,
                        usb_enable_dhcp,
                    },
                ),
            ),
        }
    }

    /// No customization.
    pub fn none() -> (r: Self)
        ensures
            r.customization is None,
    {
        FlashingSdLinuxConfig { customization: None }
    }
}

/// Flasher that formats an SD card, with no image and no customization.
#[derive(Clone, Debug)]
pub struct FormatFlasher {
    pub path: String,
}

impl FormatFlasher {
    pub fn new(p: Target) -> (r: Self)
        ensures
            r.path == p.device.path,
    {
        FormatFlasher { path: p.device.path }
    }
}

/// Where on the card customization writes, and what.
#[derive(Clone, Debug)]
pub struct CustomizationPlan {
    /// The boot partition's byte range.
    pub partition: ByteRange,
    /// The files written to the FAT file system in that range, in order.
    pub files: Vec<FileWrite>,
}

/// Whether a customization writes anything: the structured scheme always
/// does, the line-oriented one where some option is set.
pub open spec fn spec_writes(c: Customization) -> bool {
    match c {
        Customization::Sysconf(x) => x.spec_has_customization(),
        Customization::Raspberry(_) => true,
    }
}

/// Flasher of OS images to an SD card. `I` resolves to the image, `B` to its
/// optional block map.
pub struct Flasher<I, B> {
    pub img: I,
    pub bmap: Option<B>,
    pub dst: String,
    pub customization: FlashingSdLinuxConfig,
}

impl<I, B> Flasher<I, B> {
    pub fn new(img: I, bmap: Option<B>, dst: Target, customization: FlashingSdLinuxConfig) -> (r: Self)
        ensures
            r.img == img,
            r.bmap == bmap,
            r.dst == dst.device.path,
            r.customization == customization,
    {
        Flasher { img, bmap, dst: dst.device.path, customization }
    }

    /// Checked before anything is written to the card: customization with
    /// the user `root` is refused.
    pub fn validate(&self) -> (r: Result<(), Error>)
        ensures
            r is Ok <==> (self.customization.customization matches Some(c) ==> c.spec_valid()),
            r matches Err(e) ==> e == Error::InvalidCustomizaton,
    {
        match &self.customization.customization {
            Some(c) => if c.validate() {
                Ok(())
            } else {
                Err(Error::InvalidCustomizaton)
            },
            None => Ok(()),
        }
    }

    /// What customization writes once the image is on the card. `gpt` is what
    /// reading a GPT from the card found, `first_sector` its first 512 bytes,
    /// and `serialized` the TOML serialization of a structured customization.
    /// `None` where nothing is to be written.
    pub fn customization_plan(&self, gpt: GptTable, first_sector: &[u8], serialized: &str) -> (r:
        Result<Option<CustomizationPlan>, Error>)
        ensures
            match self.customization.customization {
                None => r == Ok::<Option<CustomizationPlan>, Error>(None),
                Some(c) => {
                    &&& !c.spec_valid() ==> r == Err::<Option<CustomizationPlan>, Error>(
                        Error::InvalidCustomizaton,
                    )
                    &&& (c.spec_valid() && !spec_writes(c)) ==> r == Ok::<
                        Option<CustomizationPlan>,
                        Error,
                    >(None)
                    &&& (c.spec_valid() && spec_writes(c)) ==> {
                        &&& r is Err <==> locate_boot_partition_spec(gpt, first_sector@) is Err
                        &&& r matches Err(e) ==> locate_boot_partition_spec(gpt, first_sector@)
                            == Err::<ByteRange, Error>(e)
                        &&& r matches Ok(p) ==> p matches Some(plan) && locate_boot_partition_spec(
                            gpt,
                            first_sector@,
                        ) == Ok::<ByteRange, Error>(plan.partition) && match c {
                            Customization::Sysconf(x) => x.spec_files(plan.files@),
                            Customization::Raspberry(_) => spec_toml_files(
                                serialized@,
                                plan.files@,
                            ),
                        }
                    }
                },
            },
    {
        let c = match &self.customization.customization {
            None => {
                return Ok(None);
            },
            Some(c) => c,
        };
        if !c.validate() {
            return Err(Error::InvalidCustomizaton);
        }
        let files = match c {
            Customization::Sysconf(x) => {
                if !x.has_customization() {
                    return Ok(None);
                }
                x.files()
            },
            Customization::Raspberry(x) => x.files(serialized),
        };
        match locate_boot_partition(gpt, first_sector) {
            Ok(partition) => Ok(Some(CustomizationPlan { partition, files })),
            Err(e) => Err(e),
        }
    }
}

/// The boot partition that `locate_boot_partition` finds.
pub open spec fn locate_boot_partition_spec(gpt: GptTable, first_sector: Seq<u8>) -> Result<
    ByteRange,
    Error,
> {
    crate::partition::spec_boot_range(
        gpt,
        match gpt {
            GptTable::Present(_) => None,
            GptTable::Absent => crate::partition::spec_mbr_boot(first_sector),
        },
    )
}

/// The raw (unbuffered) macOS device path for a buffered one: `/dev/diskN`
/// becomes `/dev/rdiskN`. `None` for any other path.
pub fn raw_device_path(dst: &str) -> (r: Option<String>)
    ensures
        r is Some <==> (dst@.len() >= "/dev/disk"@.len() && dst@.subrange(0, "/dev/disk"@.len() as int)
            == "/dev/disk"@),
        r matches Some(p) ==> p@ == "/dev/rdisk"@ + dst@.subrange("/dev/disk"@.len() as int, dst@.len() as int),
{
    let prefix = "/dev/disk";
    proof {
        reveal_strlit("/dev/disk");
    }
    let n = dst.unicode_len();
    let m = prefix.unicode_len();
    if n < m {
        return None;
    }
    let head = dst.substring_char(0, m);
    if !crate::text::str_eq(head, prefix) {
        return None;
    }
    let mut r = String::from_str("/dev/rdisk");
    r.append(dst.substring_char(m, n));
    Some(r)
}

} // verus!
