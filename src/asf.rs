//! The object-stream reader: which Advanced Systems Format file a stream is,
//! from the media types of its stream-properties objects.

use vstd::prelude::*;
use crate::bytes::{has_at, le32, occurs_at, u32_le};
use crate::format::FileFormat;

verus! {

/// Length of an object header: a GUID and a 64-bit size.
pub const OBJECT_HEADER_LEN: usize = 24;

/// Where the first object inside the header object starts.
pub const FIRST_CHILD: usize = 30;

/// The formats that the object-stream reader names.
pub open spec fn asf_family(g: FileFormat) -> bool {
    g == FileFormat::WindowsMediaVideo || g == FileFormat::WindowsMediaAudio
}

/// The 64-bit little-endian value at `off`, where it is whole and its high
/// half is zero.
pub open spec fn small_le64(d: Seq<u8>, off: int) -> Option<int> {
    if off + 8 <= d.len() && le32(d, off + 4) == 0 {
        Some(le32(d, off))
    } else {
        None
    }
}

/// The answer where the walk ends: Windows Media Audio where an audio
/// stream was met.
pub open spec fn asf_end(audio: bool) -> Option<FileFormat> {
    if audio {
        Some(FileFormat::WindowsMediaAudio)
    } else {
        None
    }
}

/// The outcome of reading at most `left` objects from `pos` up to `end`,
/// `audio` telling whether an audio stream was met before `pos`.
pub open spec fn asf_scan(d: Seq<u8>, pos: int, left: int, end: int, audio: bool) -> Option<FileFormat>
    decreases left,
{
    if left <= 0 || pos >= end || end - pos < OBJECT_HEADER_LEN {
        asf_end(audio)
    } else {
        match small_le64(d, pos + 16) {
            None => asf_end(audio),
            Some(size) => if size < OBJECT_HEADER_LEN || size > end - pos {
                asf_end(audio)
            } else {
                let props = occurs_at(
                    d,
                    pos,
                    seq![0xB7u8, 0xDC, 0x07, 0x91, 0xA9, 0xB7, 0xCF, 0x11, 0x8E, 0xE6, 0x00, 0xC0, 0x0C, 0x20, 0x53, 0x65],
                );
                let t = pos + OBJECT_HEADER_LEN;
                if props && occurs_at(
                    d,
                    t,
                    seq![0xC0u8, 0xEF, 0x19, 0xBC, 0x4D, 0x5B, 0xCF, 0x11, 0xA8, 0xFD, 0x00, 0x80, 0x5F, 0x5C, 0x44, 0x2B],
                ) {
                    Some(FileFormat::WindowsMediaVideo)
                } else {
                    let heard = props && occurs_at(
                        d,
                        t,
                        seq![0x40u8, 0x9E, 0x69, 0xF8, 0x4D, 0x5B, 0xCF, 0x11, 0xA8, 0xFD, 0x00, 0x80, 0x5F, 0x5C, 0x44, 0x2B],
                    );
                    asf_scan(d, pos + size, left - 1, end, audio || heard)
                }
            },
        }
    }
}

/// What the object-stream reader answers for `d`: the objects inside the
/// header object, as many as it declares, up to its end or the stream's.
pub open spec fn asf_of(d: Seq<u8>) -> Option<FileFormat> {
    match small_le64(d, 16) {
        None => None,
        Some(header_size) => if 28 <= d.len() {
            let end = if header_size < d.len() { header_size } else { d.len() as int };
            asf_scan(d, FIRST_CHILD as int, le32(d, 24), end, false)
        } else {
            None
        },
    }
}

/// The 64-bit little-endian size at `off`, where its high half is zero.
fn small_u64_le(d: &[u8], off: usize) -> (r: Option<u32>)
    ensures
        r matches Some(v) ==> small_le64(d@, off as int) == Some(v as int),
        r is None ==> small_le64(d@, off as int) is None,
{
    let lo = match u32_le(d, off) {
        Some(v) => v,
        None => return None,
    };
    if off > d.len() - 4 {
        return None;
    }
    match u32_le(d, off + 4) {
        Some(0) => Some(lo),
        _ => None,
    }
}

fn end_of(audio: bool) -> (r: Option<FileFormat>)
    ensures
        r == asf_end(audio),
{
    if audio {
        Some(FileFormat::WindowsMediaAudio)
    } else {
        None
    }
}

/// Reads the objects inside the header object, at most as many as it
/// declares: a stream of video media selects Windows Media Video, else one of
/// audio media selects Windows Media Audio. Anything else, or an object that
/// runs past the header, leaves it unresolved.
pub fn from_asf(d: &[u8]) -> (r: Option<FileFormat>)
    ensures
        r == asf_of(d@),
        r matches Some(g) ==> asf_family(g),
{
    let header_size = match small_u64_le(d, 16) {
        Some(v) => v as usize,
        None => return None,
    };
    let count = match u32_le(d, 24) {
        Some(v) => v,
        None => return None,
    };
    let end = if header_size < d.len() { header_size } else { d.len() };
    let mut audio = false;
    let mut pos = FIRST_CHILD;
    let mut i: u32 = 0;
    while i < count && pos < end
        invariant
            end <= d@.len(),
            i <= count,
            asf_of(d@) == asf_scan(d@, pos as int, count - i, end as int, audio),
        decreases count - i,
    {
        if end - pos < OBJECT_HEADER_LEN {
            return end_of(audio);
        }
        let size = match small_u64_le(d, pos + 16) {
            Some(v) => v as usize,
            None => return end_of(audio),
        };
        if size < OBJECT_HEADER_LEN || size > end - pos {
            return end_of(audio);
        }
        if has_at(
            d,
            pos,
            &[0xB7u8, 0xDC, 0x07, 0x91, 0xA9, 0xB7, 0xCF, 0x11, 0x8E, 0xE6, 0x00, 0xC0, 0x0C, 0x20, 0x53, 0x65],
        ) {
            let t = pos + OBJECT_HEADER_LEN;
            if has_at(
                d,
                t,
                &[0xC0u8, 0xEF, 0x19, 0xBC, 0x4D, 0x5B, 0xCF, 0x11, 0xA8, 0xFD, 0x00, 0x80, 0x5F, 0x5C, 0x44, 0x2B],
            ) {
                return Some(FileFormat::WindowsMediaVideo);
            }
            if has_at(
                d,
                t,
                &[0x40u8, 0x9E, 0x69, 0xF8, 0x4D, 0x5B, 0xCF, 0x11, 0xA8, 0xFD, 0x00, 0x80, 0x5F, 0x5C, 0x44, 0x2B],
            ) {
                audio = true;
            }
        }
        pos = pos + size;
        i += 1;
    }
    end_of(audio)
}

proof fn asf_scan_not_empty(d: Seq<u8>, pos: int, left: int, end: int, audio: bool)
    ensures
        asf_scan(d, pos, left, end, audio) != Some(FileFormat::Empty),
    decreases left,
{
    if left > 0 && pos < end && end - pos >= OBJECT_HEADER_LEN {
        if let Some(size) = small_le64(d, pos + 16) {
            asf_scan_not_empty(d, pos + size, left - 1, end, true);
            asf_scan_not_empty(d, pos + size, left - 1, end, audio);
        }
    }
}

/// The object-stream reader never names `Empty`.
pub proof fn asf_not_empty(d: Seq<u8>)
    ensures
        asf_of(d) != Some(FileFormat::Empty),
{
    if let Some(header_size) = small_le64(d, 16) {
        let end = if header_size < d.len() { header_size } else { d.len() as int };
        asf_scan_not_empty(d, FIRST_CHILD as int, le32(d, 24), end, false);
    }
}

} // verus!
