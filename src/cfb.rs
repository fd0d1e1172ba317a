//! The structured-storage reader: which Compound File Binary format a file
//! is, from the class identifier of its root entry or the names of its
//! streams.

use vstd::prelude::*;
use crate::bytes::{has_at, le16, le32, occurs_at, u16_le, u32_le};
use crate::format::FileFormat;

verus! {

/// Length of the header, which also fills the first sector slot.
pub const HEADER_LEN: u64 = 512;

/// Length of one directory entry.
pub const DIR_ENTRY_LEN: u64 = 128;

/// Offset, in a directory entry, of the class identifier.
pub const CLASS_ID_OFFSET: u64 = 0x50;

/// Number of allocation-table sector numbers held in the header.
pub const HEADER_DIFAT_LEN: u64 = 109;

/// Sector numbers from this value up mark the end of a chain or free sectors.
pub const MAX_REGULAR_SECTOR: u32 = 0xFFFFFFFA;

/// The sector size that the header of `d` declares: 512 or 4096 bytes, or
/// zero for any other shift.
pub open spec fn sector_size(d: Seq<u8>) -> int {
    if d.len() < HEADER_LEN {
        0
    } else if le16(d, 0x1E) == 9 {
        512
    } else if le16(d, 0x1E) == 12 {
        4096
    } else {
        0
    }
}

/// Where the sector numbered `s` starts in a file with sectors of `size`.
pub open spec fn sector_offset(size: int, s: int) -> int {
    (s + 1) * size
}

/// Where the root entry starts: at the head of the first directory sector.
pub open spec fn root_entry_offset(d: Seq<u8>) -> int {
    sector_offset(sector_size(d), le32(d, 0x30))
}

/// The format that the class identifier at `off` in `d` names.
pub open spec fn class_marker(d: Seq<u8>, off: int) -> Option<FileFormat> {
    if occurs_at(d, off, seq![0x06u8, 0x09, 0x02, 0x00, 0x00, 0x00, 0x00, 0x00, 0xC0, 0x00, 0x00, 0x00, 0x00, 0x00, 0x00, 0x46]) {
        Some(FileFormat::MicrosoftWordDocument)
    } else if occurs_at(d, off, seq![0x20u8, 0x08, 0x02, 0x00, 0x00, 0x00, 0x00, 0x00, 0xC0, 0x00, 0x00, 0x00, 0x00, 0x00, 0x00, 0x46]) {
        Some(FileFormat::MicrosoftExcelSpreadsheet)
    } else if occurs_at(d, off, seq![0x10u8, 0x08, 0x02, 0x00, 0x00, 0x00, 0x00, 0x00, 0xC0, 0x00, 0x00, 0x00, 0x00, 0x00, 0x00, 0x46]) {
        Some(FileFormat::MicrosoftExcelSpreadsheet)
    } else if occurs_at(d, off, seq![0x10u8, 0x8D, 0x81, 0x64, 0x9B, 0x4F, 0xCF, 0x11, 0x86, 0xEA, 0x00, 0xAA, 0x00, 0xB9, 0x29, 0xE8]) {
        Some(FileFormat::MicrosoftPowerPointPresentation)
    } else if occurs_at(d, off, seq![0x84u8, 0x10, 0x0C, 0x00, 0x00, 0x00, 0x00, 0x00, 0xC0, 0x00, 0x00, 0x00, 0x00, 0x00, 0x00, 0x46]) {
        Some(FileFormat::MicrosoftSoftwareInstaller)
    } else if occurs_at(d, off, seq![0x01u8, 0x12, 0x02, 0x00, 0x00, 0x00, 0x00, 0x00, 0xC0, 0x00, 0x00, 0x00, 0x00, 0x00, 0x00, 0x46]) {
        Some(FileFormat::MicrosoftPublisherDocument)
    } else if occurs_at(d, off, seq![0x14u8, 0x1A, 0x02, 0x00, 0x00, 0x00, 0x00, 0x00, 0xC0, 0x00, 0x00, 0x00, 0x00, 0x00, 0x00, 0x46]) {
        Some(FileFormat::MicrosoftVisioDrawing)
    } else if occurs_at(d, off, seq![0x3Au8, 0x8F, 0xB7, 0x74, 0xC8, 0xC8, 0xD1, 0x11, 0xBE, 0x11, 0x00, 0xC0, 0x4F, 0xB6, 0xFA, 0xF1]) {
        Some(FileFormat::MicrosoftProjectPlan)
    } else {
        None
    }
}

/// The format that the directory entry name at `off`, of `name_len` bytes
/// with its terminator, names.
pub open spec fn stream_marker(d: Seq<u8>, off: int, name_len: int) -> Option<FileFormat> {
    if name_len == 26 && occurs_at(d, off, seq![0x57u8, 0x00, 0x6F, 0x00, 0x72, 0x00, 0x64, 0x00, 0x44, 0x00, 0x6F, 0x00, 0x63, 0x00, 0x75, 0x00, 0x6D, 0x00, 0x65, 0x00, 0x6E, 0x00, 0x74, 0x00]) {
        Some(FileFormat::MicrosoftWordDocument)
    } else if name_len == 18 && occurs_at(d, off, seq![0x57u8, 0x00, 0x6F, 0x00, 0x72, 0x00, 0x6B, 0x00, 0x62, 0x00, 0x6F, 0x00, 0x6F, 0x00, 0x6B, 0x00]) {
        Some(FileFormat::MicrosoftExcelSpreadsheet)
    } else if name_len == 10 && occurs_at(d, off, seq![0x42u8, 0x00, 0x6F, 0x00, 0x6F, 0x00, 0x6B, 0x00]) {
        Some(FileFormat::MicrosoftExcelSpreadsheet)
    } else if name_len == 40 && occurs_at(d, off, seq![0x50u8, 0x00, 0x6F, 0x00, 0x77, 0x00, 0x65, 0x00, 0x72, 0x00, 0x50, 0x00, 0x6F, 0x00, 0x69, 0x00, 0x6E, 0x00, 0x74, 0x00, 0x20, 0x00, 0x44, 0x00, 0x6F, 0x00, 0x63, 0x00, 0x75, 0x00, 0x6D, 0x00, 0x65, 0x00, 0x6E, 0x00, 0x74, 0x00]) {
        Some(FileFormat::MicrosoftPowerPointPresentation)
    } else if name_len == 28 && occurs_at(d, off, seq![0x56u8, 0x00, 0x69, 0x00, 0x73, 0x00, 0x69, 0x00, 0x6F, 0x00, 0x44, 0x00, 0x6F, 0x00, 0x63, 0x00, 0x75, 0x00, 0x6D, 0x00, 0x65, 0x00, 0x6E, 0x00, 0x74, 0x00]) {
        Some(FileFormat::MicrosoftVisioDrawing)
    } else if name_len == 12 && occurs_at(d, off, seq![0x51u8, 0x00, 0x75, 0x00, 0x69, 0x00, 0x6C, 0x00, 0x6C, 0x00]) {
        Some(FileFormat::MicrosoftPublisherDocument)
    } else {
        None
    }
}

/// The formats that the structured-storage reader names.
pub open spec fn cfb_family(g: FileFormat) -> bool {
    g == FileFormat::CompoundFileBinary || g == FileFormat::MicrosoftWordDocument || g
        == FileFormat::MicrosoftExcelSpreadsheet || g == FileFormat::MicrosoftPowerPointPresentation
        || g == FileFormat::MicrosoftSoftwareInstaller || g == FileFormat::MicrosoftPublisherDocument
        || g == FileFormat::MicrosoftVisioDrawing || g == FileFormat::MicrosoftProjectPlan
}

/// The header is whole, declares a known sector size, and the root entry
/// lies within the stream.
pub open spec fn root_entry_readable(d: Seq<u8>) -> bool {
    sector_size(d) > 0 && root_entry_offset(d) + DIR_ENTRY_LEN <= d.len()
}

/// The format that the class identifier of the root entry names.
pub open spec fn root_class_marker(d: Seq<u8>) -> Option<FileFormat> {
    if root_entry_readable(d) {
        class_marker(d, root_entry_offset(d) + CLASS_ID_OFFSET)
    } else {
        None
    }
}

/// The format that the first directory entry of `[k, entries)` in the sector
/// at `base` whose name marks a format names.
pub open spec fn sector_marker(d: Seq<u8>, base: int, k: int, entries: int) -> Option<FileFormat>
    decreases entries - k,
{
    if k >= entries {
        None
    } else {
        let e = base + DIR_ENTRY_LEN * k;
        let name_len = le16(d, e + 0x40);
        if name_len <= 64 && stream_marker(d, e, name_len) is Some {
            stream_marker(d, e, name_len)
        } else {
            sector_marker(d, base, k + 1, entries)
        }
    }
}

/// The sector that follows `s` in its chain, as the allocation table sector
/// that the header lists for it gives; `None` where the header lists none or
/// the table entry lies past the end.
pub open spec fn next_of(d: Seq<u8>, size: int, s: int) -> Option<int> {
    let per_sector = size / 4;
    let idx = s / per_sector;
    if idx >= HEADER_DIFAT_LEN {
        None
    } else {
        let fat = le32(d, 0x4C + 4 * idx);
        let off = sector_offset(size, fat) + 4 * (s % per_sector);
        if fat >= MAX_REGULAR_SECTOR as int || off + 4 > d.len() {
            None
        } else {
            Some(le32(d, off))
        }
    }
}

/// `a` where it names a format, else `b`.
pub open spec fn first_of(a: Option<FileFormat>, b: Option<FileFormat>) -> Option<FileFormat> {
    if a is Some { a } else { b }
}

/// The walk of the directory chain from sector `s`, at most `left` sectors
/// more: `None` where the chain is broken (a sector past the end, a free or
/// reserved sector number, an allocation-table entry that cannot be read, or
/// a walk that runs out of steps, as a cycle does); otherwise the format that
/// the first marking stream name met names, if any.
pub open spec fn chain_walk(d: Seq<u8>, size: int, s: int, left: int) -> Option<Option<FileFormat>>
    decreases left,
{
    if left <= 0 {
        None
    } else if s >= MAX_REGULAR_SECTOR as int {
        if s == 0xFFFFFFFE { Some(None) } else { None }
    } else {
        let base = sector_offset(size, s);
        if base + size > d.len() {
            None
        } else {
            match next_of(d, size, s) {
                None => None,
                Some(n) => match chain_walk(d, size, n, left - 1) {
                    None => None,
                    Some(rest) => Some(first_of(sector_marker(d, base, 0, size / DIR_ENTRY_LEN as int), rest)),
                },
            }
        }
    }
}

/// The walk of the whole directory chain, bounded by the number of sectors
/// the stream can hold.
pub open spec fn dir_walk(d: Seq<u8>) -> Option<Option<FileFormat>> {
    let size = sector_size(d);
    chain_walk(d, size, le32(d, 0x30), d.len() as int / size + 1)
}

/// The directory chain runs, sector by sector within the stream, to its end
/// marker within the bound.
pub open spec fn dir_chain_whole(d: Seq<u8>) -> bool {
    sector_size(d) > 0 && dir_walk(d) is Some
}

/// The allocation-table sector that the header lists at `idx` is a regular
/// sector lying wholly within the stream.
pub open spec fn fat_sector_present(d: Seq<u8>, size: int, idx: int) -> bool {
    let fat = le32(d, 0x4C + 4 * idx);
    fat < MAX_REGULAR_SECTOR as int && sector_offset(size, fat) + size <= d.len()
}

/// The header declares at least one allocation-table sector, and every one it
/// lists lies within the stream.
#[verifier::opaque]
pub open spec fn fat_in_stream(d: Seq<u8>) -> bool {
    let size = sector_size(d);
    let count = le32(d, 0x2C);
    &&& d.len() >= HEADER_LEN
    &&& count >= 1
    &&& forall|idx: int| 0 <= idx < count && idx < HEADER_DIFAT_LEN ==> #[trigger] fat_sector_present(d, size, idx)
}

/// What the structured-storage reader answers for `d`: unresolved where the
/// root entry, an allocation-table sector or the directory chain is broken;
/// otherwise the class of the root entry where it is known, else the first
/// stream name that marks a format, else the plain container.
pub open spec fn cfb_of(d: Seq<u8>) -> Option<FileFormat> {
    if !root_entry_readable(d) || !fat_in_stream(d) || !dir_chain_whole(d) {
        None
    } else if root_class_marker(d) is Some {
        root_class_marker(d)
    } else {
        match dir_walk(d) {
            Some(Some(g)) => Some(g),
            _ => Some(FileFormat::CompoundFileBinary),
        }
    }
}

fn class_marker_at(d: &[u8], off: usize) -> (r: Option<FileFormat>)
    ensures
        r == class_marker(d@, off as int),
{
    if has_at(d, off, &[0x06u8, 0x09, 0x02, 0x00, 0x00, 0x00, 0x00, 0x00, 0xC0, 0x00, 0x00, 0x00, 0x00, 0x00, 0x00, 0x46]) {
        Some(FileFormat::MicrosoftWordDocument)
    } else if has_at(d, off, &[0x20u8, 0x08, 0x02, 0x00, 0x00, 0x00, 0x00, 0x00, 0xC0, 0x00, 0x00, 0x00, 0x00, 0x00, 0x00, 0x46]) {
        Some(FileFormat::MicrosoftExcelSpreadsheet)
    } else if has_at(d, off, &[0x10u8, 0x08, 0x02, 0x00, 0x00, 0x00, 0x00, 0x00, 0xC0, 0x00, 0x00, 0x00, 0x00, 0x00, 0x00, 0x46]) {
        Some(FileFormat::MicrosoftExcelSpreadsheet)
    } else if has_at(d, off, &[0x10u8, 0x8D, 0x81, 0x64, 0x9B, 0x4F, 0xCF, 0x11, 0x86, 0xEA, 0x00, 0xAA, 0x00, 0xB9, 0x29, 0xE8]) {
        Some(FileFormat::MicrosoftPowerPointPresentation)
    } else if has_at(d, off, &[0x84u8, 0x10, 0x0C, 0x00, 0x00, 0x00, 0x00, 0x00, 0xC0, 0x00, 0x00, 0x00, 0x00, 0x00, 0x00, 0x46]) {
        Some(FileFormat::MicrosoftSoftwareInstaller)
    } else if has_at(d, off, &[0x01u8, 0x12, 0x02, 0x00, 0x00, 0x00, 0x00, 0x00, 0xC0, 0x00, 0x00, 0x00, 0x00, 0x00, 0x00, 0x46]) {
        Some(FileFormat::MicrosoftPublisherDocument)
    } else if has_at(d, off, &[0x14u8, 0x1A, 0x02, 0x00, 0x00, 0x00, 0x00, 0x00, 0xC0, 0x00, 0x00, 0x00, 0x00, 0x00, 0x00, 0x46]) {
        Some(FileFormat::MicrosoftVisioDrawing)
    } else if has_at(d, off, &[0x3Au8, 0x8F, 0xB7, 0x74, 0xC8, 0xC8, 0xD1, 0x11, 0xBE, 0x11, 0x00, 0xC0, 0x4F, 0xB6, 0xFA, 0xF1]) {
        Some(FileFormat::MicrosoftProjectPlan)
    } else {
        None
    }
}

fn stream_marker_at(d: &[u8], off: usize, name_len: u16) -> (r: Option<FileFormat>)
    ensures
        r == stream_marker(d@, off as int, name_len as int),
{
    if name_len == 26 && has_at(d, off, &[0x57u8, 0x00, 0x6F, 0x00, 0x72, 0x00, 0x64, 0x00, 0x44, 0x00, 0x6F, 0x00, 0x63, 0x00, 0x75, 0x00, 0x6D, 0x00, 0x65, 0x00, 0x6E, 0x00, 0x74, 0x00]) {
        Some(FileFormat::MicrosoftWordDocument)
    } else if name_len == 18 && has_at(d, off, &[0x57u8, 0x00, 0x6F, 0x00, 0x72, 0x00, 0x6B, 0x00, 0x62, 0x00, 0x6F, 0x00, 0x6F, 0x00, 0x6B, 0x00]) {
        Some(FileFormat::MicrosoftExcelSpreadsheet)
    } else if name_len == 10 && has_at(d, off, &[0x42u8, 0x00, 0x6F, 0x00, 0x6F, 0x00, 0x6B, 0x00]) {
        Some(FileFormat::MicrosoftExcelSpreadsheet)
    } else if name_len == 40 && has_at(d, off, &[0x50u8, 0x00, 0x6F, 0x00, 0x77, 0x00, 0x65, 0x00, 0x72, 0x00, 0x50, 0x00, 0x6F, 0x00, 0x69, 0x00, 0x6E, 0x00, 0x74, 0x00, 0x20, 0x00, 0x44, 0x00, 0x6F, 0x00, 0x63, 0x00, 0x75, 0x00, 0x6D, 0x00, 0x65, 0x00, 0x6E, 0x00, 0x74, 0x00]) {
        Some(FileFormat::MicrosoftPowerPointPresentation)
    } else if name_len == 28 && has_at(d, off, &[0x56u8, 0x00, 0x69, 0x00, 0x73, 0x00, 0x69, 0x00, 0x6F, 0x00, 0x44, 0x00, 0x6F, 0x00, 0x63, 0x00, 0x75, 0x00, 0x6D, 0x00, 0x65, 0x00, 0x6E, 0x00, 0x74, 0x00]) {
        Some(FileFormat::MicrosoftVisioDrawing)
    } else if name_len == 12 && has_at(d, off, &[0x51u8, 0x00, 0x75, 0x00, 0x69, 0x00, 0x6C, 0x00, 0x6C, 0x00]) {
        Some(FileFormat::MicrosoftPublisherDocument)
    } else {
        None
    }
}

/// Where sector `s` starts, for sectors of `size` bytes.
fn sector_start(size: u64, s: u32) -> (r: u64)
    requires
        size == 512 || size == 4096,
    ensures
        r as int == sector_offset(size as int, s as int),
{
    assert((s as u64 + 1) * size <= 0x1_0000_0000u64 * 4096) by (nonlinear_arith)
        requires
            s < 0x1_0000_0000u64,
            size <= 4096,
    ;
    (s as u64 + 1) * size
}

/// Whether the header declares at least one allocation-table sector and every
/// one it lists lies within the stream.
fn fat_sectors_present(d: &[u8], size: u64) -> (r: bool)
    requires
        d@.len() >= HEADER_LEN,
        sector_size(d@) == size as int,
        size == 512 || size == 4096,
    ensures
        r == fat_in_stream(d@),
{
    proof {
        reveal(fat_in_stream);
    }
    let count = match u32_le(d, 0x2C) {
        Some(v) => v as u64,
        None => return false,
    };
    if count == 0 {
        return false;
    }
    let listed = if count < HEADER_DIFAT_LEN { count } else { HEADER_DIFAT_LEN };
    let len = d.len() as u64;
    let mut idx: u64 = 0;
    while idx < listed
        invariant
            listed <= HEADER_DIFAT_LEN,
            listed == (if count < HEADER_DIFAT_LEN { count } else { HEADER_DIFAT_LEN }),
            count as int == le32(d@, 0x2C),
            len == d@.len(),
            d@.len() >= HEADER_LEN,
            sector_size(d@) == size as int,
            size == 512 || size == 4096,
            forall|j: int| 0 <= j < idx ==> #[trigger] fat_sector_present(d@, size as int, j),
        decreases listed - idx,
    {
        let fat = match u32_le(d, (0x4C + 4 * idx) as usize) {
            Some(v) => v,
            None => return false,
        };
        if fat >= MAX_REGULAR_SECTOR {
            proof {
                reveal(fat_in_stream);
                assert(!fat_sector_present(d@, size as int, idx as int));
            }
            return false;
        }
        let off = sector_start(size, fat);
        if off > len || len - off < size {
            proof {
                reveal(fat_in_stream);
                assert(!fat_sector_present(d@, size as int, idx as int));
            }
            return false;
        }
        idx += 1;
    }
    assert forall|j: int| 0 <= j < le32(d@, 0x2C) && j < HEADER_DIFAT_LEN implies #[trigger] fat_sector_present(
        d@,
        sector_size(d@),
        j,
    ) by {
        assert(j < listed);
    }
    true
}

/// The sector that follows `s` in its chain, read from the allocation table;
/// `None` where the table cannot be reached through the header.
fn next_sector(d: &[u8], size: u64, s: u32) -> (r: Option<u32>)
    requires
        size == 512 || size == 4096,
        d@.len() >= HEADER_LEN,
    ensures
        r matches Some(n) ==> next_of(d@, size as int, s as int) == Some(n as int),
        r is None ==> next_of(d@, size as int, s as int) is None,
{
    let per_sector = size / 4;
    let idx = s as u64 / per_sector;
    if idx >= HEADER_DIFAT_LEN {
        return None;
    }
    let fat = match u32_le(d, (0x4C + 4 * idx) as usize) {
        Some(v) => v,
        None => return None,
    };
    if fat >= MAX_REGULAR_SECTOR {
        return None;
    }
    let off = sector_start(size, fat) + 4 * (s as u64 % per_sector);
    if off > d.len() as u64 {
        return None;
    }
    u32_le(d, off as usize)
}

/// Reads a Compound File Binary stream. The header, its allocation-table
/// sectors, the root entry and the whole directory chain must lie within the
/// stream, the chain reaching its end marker within as many steps as the
/// stream has sectors, else it is unresolved. Then a known class identifier
/// on the root entry decides, else the first stream name that marks a format,
/// else it is the plain container.
pub fn from_cfb(d: &[u8]) -> (r: Option<FileFormat>)
    ensures
        r == cfb_of(d@),
        r matches Some(g) ==> cfb_family(g),
        !root_entry_readable(d@) ==> r is None,
        !fat_in_stream(d@) ==> r is None,
        !dir_chain_whole(d@) ==> r is None,
        fat_in_stream(d@) && dir_chain_whole(d@) ==> (root_class_marker(d@) matches Some(g) ==> r == Some(
            g,
        )),
{
    let n = d.len();
    let len = n as u64;
    assert(len <= usize::MAX);
    if len < HEADER_LEN {
        return None;
    }
    let shift = match u16_le(d, 0x1E) {
        Some(v) => v,
        None => return None,
    };
    let size: u64 = if shift == 9 {
        512
    } else if shift == 12 {
        4096
    } else {
        return None;
    };
    let first = match u32_le(d, 0x30) {
        Some(v) => v,
        None => return None,
    };
    if !fat_sectors_present(d, size) {
        return None;
    }
    let root = sector_start(size, first);
    if root > len || len - root < DIR_ENTRY_LEN {
        return None;
    }
    let max_steps: u64 = len / size + 1;
    let mut steps: u64 = 0;
    let mut s = first;
    let mut found: Option<FileFormat> = None;
    loop
        invariant
            size == 512 || size == 4096,
            len == d@.len(),
            len <= usize::MAX,
            root_entry_readable(d@),
            fat_in_stream(d@),
            sector_size(d@) == size as int,
            steps <= max_steps,
            max_steps == len / size + 1,
            root == sector_offset(size as int, first as int),
            first as int == le32(d@, 0x30),
            found matches Some(g) ==> cfb_family(g),
            dir_walk(d@) == (match chain_walk(d@, size as int, s as int, max_steps - steps) {
                None => None,
                Some(rest) => Some(first_of(found, rest)),
            }),
        ensures
            len == d@.len(),
            root_entry_readable(d@),
            fat_in_stream(d@),
            sector_size(d@) == size as int,
            root == sector_offset(size as int, first as int),
            found matches Some(g) ==> cfb_family(g),
            dir_walk(d@) == Some(found),
        decreases max_steps - steps,
    {
        if steps == max_steps {
            return None;
        }
        if s >= MAX_REGULAR_SECTOR {
            if s == 0xFFFFFFFE {
                break;
            }
            return None;
        }
        let base = sector_start(size, s);
        if base > len || len - base < size {
            return None;
        }
        let entries = size / DIR_ENTRY_LEN;
        let mut here: Option<FileFormat> = None;
        let mut k: u64 = 0;
        while k < entries && here.is_none()
            invariant
                size == 512 || size == 4096,
                entries == size / DIR_ENTRY_LEN,
                len == d@.len(),
                len <= usize::MAX,
                base + size <= len,
                k <= entries,
                here matches Some(g) ==> cfb_family(g),
                sector_marker(d@, base as int, 0, entries as int) == first_of(here, sector_marker(d@, base as int, k as int, entries as int)),
            decreases entries - k,
        {
            let e = base + DIR_ENTRY_LEN * k;
            assert(DIR_ENTRY_LEN * k + DIR_ENTRY_LEN <= size) by (nonlinear_arith)
                requires
                    k < entries,
                    entries == size / 128,
                    size == 512 || size == 4096,
            ;
            if let Some(name_len) = u16_le(d, (e + 0x40) as usize) {
                if name_len <= 64 {
                    here = stream_marker_at(d, e as usize, name_len);
                }
            }
            k += 1;
        }
        let next = match next_sector(d, size, s) {
            Some(v) => v,
            None => return None,
        };
        if found.is_none() {
            found = here;
        }
        s = next;
        steps += 1;
    }
    let class = class_marker_at(d, (root + CLASS_ID_OFFSET) as usize);
    if class.is_some() {
        return class;
    }
    match found {
        Some(g) => Some(g),
        None => Some(FileFormat::CompoundFileBinary),
    }
}

proof fn sector_marker_not_empty(d: Seq<u8>, base: int, k: int, entries: int)
    ensures
        sector_marker(d, base, k, entries) != Some(FileFormat::Empty),
    decreases entries - k,
{
    if k < entries {
        sector_marker_not_empty(d, base, k + 1, entries);
    }
}

proof fn chain_walk_not_empty(d: Seq<u8>, size: int, s: int, left: int)
    ensures
        chain_walk(d, size, s, left) != Some(Some(FileFormat::Empty)),
    decreases left,
{
    if left > 0 && s < MAX_REGULAR_SECTOR as int {
        let base = sector_offset(size, s);
        sector_marker_not_empty(d, base, 0, size / DIR_ENTRY_LEN as int);
        if let Some(n) = next_of(d, size, s) {
            chain_walk_not_empty(d, size, n, left - 1);
        }
    }
}

/// The structured-storage reader never names `Empty`.
pub proof fn cfb_not_empty(d: Seq<u8>)
    ensures
        cfb_of(d) != Some(FileFormat::Empty),
{
    let size = sector_size(d);
    chain_walk_not_empty(d, size, le32(d, 0x30), d.len() as int / size + 1);
}

} // verus!
