//! Locating the boot partition of a flashed SD card image: GPT first, MBR as
//! the fallback.
use vstd::prelude::*;

use crate::error::Error;

verus! {

/// Sector size that both partition tables are read with.
pub const SECTOR_SIZE: u64 = 512;

/// The first primary entry of an MBR partition table.
#[derive(Clone, Copy, Debug, PartialEq, Eq, Structural)]
pub struct MbrEntry {
    pub starting_lba: u32,
    pub sectors: u32,
}

/// A GPT partition, by its first and last logical block.
#[derive(Clone, Copy, Debug, PartialEq, Eq, Structural)]
pub struct GptPartition {
    pub first_lba: u64,
    pub last_lba: u64,
}

/// What reading a GPT from the device found.
#[derive(Clone, Copy, Debug, PartialEq, Eq, Structural)]
pub enum GptTable {
    /// No valid GPT.
    Absent,
    /// A valid GPT, with its second partition where it has one.
    Present(Option<GptPartition>),
}

/// A byte range `[start, end)` of the device.
#[derive(Clone, Copy, Debug, PartialEq, Eq, Structural)]
pub struct ByteRange {
    pub start: u64,
    pub end: u64,
}

/// The little-endian `u32` at byte `o` of `s`.
pub open spec fn le_u32(s: Seq<u8>, o: int) -> u32 {
    (s[o] as int + s[o + 1] as int * 256 + s[o + 2] as int * 65536 + s[o + 3] as int
        * 16777216) as u32
}

/// A valid MBR: the 0x55 0xAA signature at byte 510, and each of the four
/// primary entries (16 bytes each from byte 446) flagged inactive (0x00) or
/// active (0x80).
pub open spec fn mbr_valid(s: Seq<u8>) -> bool {
    &&& s.len() >= 512
    &&& s[510] == 0x55u8
    &&& s[511] == 0xaau8
    &&& forall|i: int| 0 <= i < 4 ==> #[trigger] s[446 + 16 * i] == 0x00u8 || s[446 + 16 * i] == 0x80u8
}

/// The starting LBA and sector count of primary entry `i` (from 0).
pub open spec fn mbr_entry(s: Seq<u8>, i: int) -> (u32, u32) {
    (le_u32(s, 454 + 16 * i), le_u32(s, 458 + 16 * i))
}

/// The four primary entries of the MBR that a device's first bytes `sector`
/// hold, in order; `None` where they hold no valid MBR.
pub open spec fn mbr_entries(sector: Seq<u8>) -> Option<Seq<(u32, u32)>> {
    if mbr_valid(sector) {
        Some(Seq::new(4, |i: int| mbr_entry(sector, i)))
    } else {
        None
    }
}

/// Relies on `mbrman::MBRHeader::read_from`, which reads the first 512 bytes
/// (bincode, little-endian), fails on fewer, and checks the boot signature and
/// each entry's boot flag; and on `MBRHeader::iter`, which yields the four
/// primary entries in order.
#[verifier::external_body]
pub(crate) fn read_mbr(sector: &[u8]) -> (r: Option<Vec<MbrEntry>>)
    ensures
        r matches Some(v) ==> v@.len() == 4 && mbr_entries(sector@) == Some(
            v@.map_values(|e: MbrEntry| (e.starting_lba, e.sectors)),
        ),
        r is None ==> mbr_entries(sector@) is None,
{
    let mut cursor = std::io::Cursor::new(sector);
    match mbrman::MBRHeader::read_from(&mut cursor) {
        Ok(h) => Some(
            h.iter().map(|(_, e)| MbrEntry { starting_lba: e.starting_lba, sectors: e.sectors }).collect(),
        ),
        Err(_) => None,
    }
}

/// The MBR entry that holds the boot partition: the first primary entry.
pub open spec fn spec_mbr_boot(sector: Seq<u8>) -> Option<MbrEntry> {
    match mbr_entries(sector) {
        Some(v) => if v.len() > 0 {
            Some(MbrEntry { starting_lba: v[0].0, sectors: v[0].1 })
        } else {
            None
        },
        None => None,
    }
}

/// The MBR entry that holds the boot partition, read from the device's first sector.
pub fn mbr_boot_entry(first_sector: &[u8]) -> (r: Option<MbrEntry>)
    ensures
        r == spec_mbr_boot(first_sector@),
{
    match read_mbr(first_sector) {
        Some(v) => {
            assert(v@.map_values(|e: MbrEntry| (e.starting_lba, e.sectors))[0] == (
                v@[0].starting_lba,
                v@[0].sectors,
            ));
            Some(v[0])
        },
        None => None,
    }
}

/// The GPT partition that holds the boot partition: the first one numbered 2.
pub fn gpt_boot_partition(parts: &Vec<(u32, GptPartition)>) -> (r: Option<GptPartition>)
    ensures
        r matches Some(p) ==> exists|i: int|
            0 <= i < parts@.len() && parts@[i] == (2u32, p) && forall|j: int|
                0 <= j < i ==> (#[trigger] parts@[j]).0 != 2,
        r is None ==> forall|i: int| 0 <= i < parts@.len() ==> (#[trigger] parts@[i]).0 != 2,
{
    let mut i: usize = 0;
    while i < parts.len()
        invariant
            i <= parts@.len(),
            forall|j: int| 0 <= j < i ==> (#[trigger] parts@[j]).0 != 2,
        decreases parts@.len() - i,
    {
        if parts[i].0 == 2 {
            return Some(parts[i].1);
        }
        i += 1;
    }
    None
}

/// The boot partition's byte range: from GPT partition 2, from its first
/// logical block through its last (inclusive), where a GPT is present; else
/// from the first MBR entry, its start and sector count. Either way the range
/// ends exclusively. A range that overflows or runs backwards, or a table that
/// is neither, is an invalid partition table.
pub open spec fn spec_boot_range(gpt: GptTable, mbr: Option<MbrEntry>) -> Result<ByteRange, Error> {
    match gpt {
        GptTable::Present(Some(p)) => {
            let s = p.first_lba * SECTOR_SIZE;
            let e = (p.last_lba + 1) * SECTOR_SIZE;
            if e <= u64::MAX && p.first_lba <= p.last_lba {
                Ok(ByteRange { start: s as u64, end: e as u64 })
            } else {
                Err(Error::InvalidPartitionTable)
            }
        },
        GptTable::Present(None) => Err(Error::InvalidPartitionTable),
        GptTable::Absent => match mbr {
            Some(m) => {
                let s = m.starting_lba * SECTOR_SIZE;
                Ok(ByteRange { start: s as u64, end: (s + m.sectors * SECTOR_SIZE) as u64 })
            },
            None => Err(Error::InvalidPartitionTable),
        },
    }
}

/// The boot partition's byte range; see `spec_boot_range`.
pub fn boot_partition_range(gpt: GptTable, mbr: Option<MbrEntry>) -> (r: Result<ByteRange, Error>)
    ensures
        r == spec_boot_range(gpt, mbr),
{
    match gpt {
        GptTable::Present(Some(p)) => {
            if p.last_lba >= u64::MAX / SECTOR_SIZE {
                return Err(Error::InvalidPartitionTable);
            }
            let e = (p.last_lba + 1) * SECTOR_SIZE;
            if p.first_lba > p.last_lba {
                return Err(Error::InvalidPartitionTable);
            }
            let s = p.first_lba * SECTOR_SIZE;
            Ok(ByteRange { start: s, end: e })
        },
        GptTable::Present(None) => Err(Error::InvalidPartitionTable),
        GptTable::Absent => match mbr {
            Some(m) => {
                let s = m.starting_lba as u64 * SECTOR_SIZE;
                Ok(ByteRange { start: s, end: s + m.sectors as u64 * SECTOR_SIZE })
            },
            None => Err(Error::InvalidPartitionTable),
        },
    }
}

/// Locates the boot partition: `gpt` is what reading a GPT from the device
/// found, `first_sector` the device's first 512 bytes, read as an MBR only
/// where there is no GPT.
pub fn locate_boot_partition(gpt: GptTable, first_sector: &[u8]) -> (r: Result<ByteRange, Error>)
    ensures
        gpt is Present ==> r == spec_boot_range(gpt, None),
        gpt is Absent ==> r == spec_boot_range(gpt, spec_mbr_boot(first_sector@)),
{
    match gpt {
        GptTable::Present(_) => boot_partition_range(gpt, None),
        GptTable::Absent => boot_partition_range(gpt, mbr_boot_entry(first_sector)),
    }
}

/// A valid GPT decides the boot partition whatever the MBR holds; without
/// one a valid MBR does; with neither the table is rejected.
pub proof fn lemma_gpt_then_mbr(gpt: GptTable, mbr: Option<MbrEntry>, other: Option<MbrEntry>)
    ensures
        gpt is Present ==> spec_boot_range(gpt, mbr) == spec_boot_range(gpt, other),
        (gpt is Absent && mbr is None) ==> spec_boot_range(gpt, mbr) == Err::<ByteRange, Error>(
            Error::InvalidPartitionTable,
        ),
        (gpt is Absent && mbr is Some) ==> spec_boot_range(gpt, mbr) is Ok,
{
}

/// Both tables give the same byte range for the same sectors: a GPT partition
/// from `first` through `first + sectors - 1` and an MBR entry starting at
/// `first` with `sectors` sectors both span `[first * 512, (first + sectors) * 512)`.
pub proof fn lemma_same_range_semantics(first: u32, sectors: u32)
    requires
        sectors > 0,
    ensures
        spec_boot_range(
            GptTable::Present(
                Some(GptPartition { first_lba: first as u64, last_lba: (first + sectors - 1) as u64 }),
            ),
            None,
        ) == spec_boot_range(GptTable::Absent, Some(MbrEntry { starting_lba: first, sectors })),
        spec_boot_range(GptTable::Absent, Some(MbrEntry { starting_lba: first, sectors }))
            == Ok::<ByteRange, Error>(
            ByteRange {
                start: (first * SECTOR_SIZE) as u64,
                end: ((first + sectors) * SECTOR_SIZE) as u64,
            },
        ),
{
    assert((first + sectors) * 512 <= u64::MAX) by (nonlinear_arith)
        requires
            first <= u32::MAX,
            sectors <= u32::MAX,
    ;
    assert(first * 512 + sectors * 512 == (first + sectors) * 512) by (nonlinear_arith);
}

/// With a GPT whose partition 2 runs from block `first` through block `last`,
/// the boot partition is bytes `[first * 512, (last + 1) * 512)`, and the MBR
/// is never consulted. A partition that runs backwards, or whose end does not
/// fit in 64 bits, is an invalid partition table instead.
pub proof fn lemma_gpt_boot_range(first: u64, last: u64, mbr: Option<MbrEntry>)
    ensures
        ({
            let gpt = GptTable::Present(Some(GptPartition { first_lba: first, last_lba: last }));
            &&& spec_boot_range(gpt, mbr) == spec_boot_range(gpt, None)
            &&& (first <= last && (last + 1) * SECTOR_SIZE <= u64::MAX) ==> spec_boot_range(gpt, mbr)
                == Ok::<ByteRange, Error>(
                ByteRange {
                    start: (first * SECTOR_SIZE) as u64,
                    end: ((last + 1) * SECTOR_SIZE) as u64,
                },
            )
            &&& !(first <= last && (last + 1) * SECTOR_SIZE <= u64::MAX) ==> spec_boot_range(
                gpt,
                mbr,
            ) == Err::<ByteRange, Error>(Error::InvalidPartitionTable)
        }),
{
}

} // verus!
