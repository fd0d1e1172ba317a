//! The executable-header reader: which executable an MS-DOS stub leads to.

use vstd::prelude::*;
use crate::bytes::{has_at, le16, le32, occurs_at, u16_le, u32_le};
use crate::format::FileFormat;

verus! {

/// Offset, in the MS-DOS header, of the pointer to the extended header.
pub const NEW_HEADER_POINTER: usize = 0x3C;

/// The flag of a portable executable's characteristics that marks a library.
pub const IMAGE_FILE_DLL: u16 = 0x2000;

/// The portable-executable characteristics `c` mark a dynamic link library.
pub open spec fn is_dll(c: int) -> bool {
    (c / 0x2000) % 2 == 1
}

/// The executable that `d`, which starts with an MS-DOS header, holds: the
/// two-byte signature of the extended header picks it (`NE`, `LE` or `PE`),
/// and a portable executable whose characteristics mark a library is a
/// dynamic link library. A pointer past the end or an unknown
/// signature leaves the MS-DOS executable.
pub open spec fn exe_of(d: Seq<u8>) -> FileFormat {
    if d.len() < NEW_HEADER_POINTER + 4 {
        FileFormat::MsDosExecutable
    } else {
        let p = le32(d, NEW_HEADER_POINTER as int);
        if occurs_at(d, p, seq![0x50u8, 0x45]) {
            if p + 24 <= d.len() && is_dll(le16(d, p + 22)) {
                FileFormat::DynamicLinkLibrary
            } else {
                FileFormat::PortableExecutable
            }
        } else if occurs_at(d, p, seq![0x4Eu8, 0x45]) {
            FileFormat::NewExecutable
        } else if occurs_at(d, p, seq![0x4Cu8, 0x45]) {
            FileFormat::LinearExecutable
        } else {
            FileFormat::MsDosExecutable
        }
    }
}

/// Reads the extended header of an MS-DOS executable.
pub fn from_exe(d: &[u8]) -> (r: FileFormat)
    ensures
        r == exe_of(d@),
{
    let p = match u32_le(d, NEW_HEADER_POINTER) {
        Some(p) => p as usize,
        None => return FileFormat::MsDosExecutable,
    };
    if has_at(d, p, &[0x50u8, 0x45]) {
        if d.len() - p < 24 {
            return FileFormat::PortableExecutable;
        }
        match u16_le(d, p + 22) {
            Some(c) if (c / IMAGE_FILE_DLL) % 2 == 1 => FileFormat::DynamicLinkLibrary,
            _ => FileFormat::PortableExecutable,
        }
    } else if has_at(d, p, &[0x4Eu8, 0x45]) {
        FileFormat::NewExecutable
    } else if has_at(d, p, &[0x4Cu8, 0x45]) {
        FileFormat::LinearExecutable
    } else {
        FileFormat::MsDosExecutable
    }
}

} // verus!
