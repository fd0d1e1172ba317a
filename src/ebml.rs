//! The element-tree reader: which Matroska format an EBML stream is, from its
//! document type and the types of its tracks.

use vstd::prelude::*;
use crate::bytes::{has_at, occurs_at};
use crate::format::FileFormat;

verus! {

/// How deep the walk descends: segment, tracks, track entry, video settings.
pub const MAX_DEPTH: u32 = 4;

/// What a walk of the element tree has met.
#[derive(Clone, Copy)]
pub struct Seen {
    /// The document type is `webm`.
    pub webm: bool,
    /// The document type is `matroska`.
    pub matroska: bool,
    /// A video track.
    pub video: bool,
    /// An audio track.
    pub audio: bool,
    /// A subtitle track.
    pub subtitle: bool,
    /// A stereoscopic mode on a video track.
    pub stereo: bool,
}

/// The formats that the element-tree reader names.
pub open spec fn ebml_family(g: FileFormat) -> bool {
    g == FileFormat::Webm || g == FileFormat::MatroskaVideo || g == FileFormat::Matroska3dVideo
        || g == FileFormat::MatroskaAudio || g == FileFormat::MatroskaSubtitles
}

/// The format that what was met selects: the web document type first, then
/// for Matroska a stereoscopic video track, a video track, an audio track, a
/// subtitle track; nothing where none of these was met.
pub open spec fn seen_format(s: Seen) -> Option<FileFormat> {
    if s.webm {
        Some(FileFormat::Webm)
    } else if !s.matroska {
        None
    } else if s.video && s.stereo {
        Some(FileFormat::Matroska3dVideo)
    } else if s.video {
        Some(FileFormat::MatroskaVideo)
    } else if s.audio {
        Some(FileFormat::MatroskaAudio)
    } else if s.subtitle {
        Some(FileFormat::MatroskaSubtitles)
    } else {
        None
    }
}

/// The width of a variable-length integer from its first byte: one more than
/// the number of leading zero bits, or zero for a zero byte.
pub open spec fn vint_width(b: u8) -> int {
    if b >= 0x80 {
        1
    } else if b >= 0x40 {
        2
    } else if b >= 0x20 {
        3
    } else if b >= 0x10 {
        4
    } else if b >= 0x08 {
        5
    } else if b >= 0x04 {
        6
    } else if b >= 0x02 {
        7
    } else if b >= 0x01 {
        8
    } else {
        0
    }
}

/// The value bits of a variable-length integer's first byte: the byte with
/// its width marker cleared.
pub open spec fn lead_value(b: u8) -> int {
    if b >= 0x80 {
        b - 0x80
    } else if b >= 0x40 {
        b - 0x40
    } else if b >= 0x20 {
        b - 0x20
    } else if b >= 0x10 {
        b - 0x10
    } else if b >= 0x08 {
        b - 0x08
    } else if b >= 0x04 {
        b - 0x04
    } else if b >= 0x02 {
        b - 0x02
    } else if b >= 0x01 {
        b - 0x01
    } else {
        0
    }
}

/// Below this bound one more byte can be taken into an integer without
/// passing 64 bits.
pub const BYTE_ROOM: u64 = 0x0100_0000_0000_0000;

/// The big-endian integer `acc` followed by the bytes of `d` in `[i, e)`;
/// `None` where it reaches 64 bits before the last byte.
pub open spec fn be_tail(d: Seq<u8>, i: int, e: int, acc: int) -> Option<int>
    decreases e - i,
{
    if i >= e {
        Some(acc)
    } else if acc >= BYTE_ROOM {
        None
    } else {
        be_tail(d, i + 1, e, acc * 256 + d[i] as int)
    }
}

/// The element at `pos` within `[pos, end)`: where its payload starts and
/// where it ends. An ID is one to four bytes; a size whose value runs past
/// `end`, as an unknown size does, ends the element at `end`.
pub open spec fn element_span(d: Seq<u8>, pos: int, end: int) -> Option<(int, int)> {
    let id_width = vint_width(d[pos]);
    let sp = pos + id_width;
    let size_width = vint_width(d[sp]);
    let p = sp + size_width;
    if id_width == 0 || id_width > 4 || id_width >= end - pos {
        None
    } else if size_width == 0 || size_width > end - sp {
        None
    } else {
        match be_tail(d, sp + 1, p, lead_value(d[sp])) {
            None => Some((p, end)),
            Some(size) => if size > end - p {
                Some((p, end))
            } else {
                Some((p, p + size))
            },
        }
    }
}

/// The unsigned integer in the payload `[p, e)`, of at most eight bytes.
pub open spec fn uint_value(d: Seq<u8>, p: int, e: int) -> Option<int> {
    if e - p > 8 {
        None
    } else {
        be_tail(d, p, e, 0)
    }
}

/// The element at `pos` is a master element the walk descends into: the EBML
/// header, a segment, the tracks, a track entry or video settings.
pub open spec fn is_walked_master(d: Seq<u8>, pos: int) -> bool {
    occurs_at(d, pos, seq![0x1Au8, 0x45, 0xDF, 0xA3]) || occurs_at(d, pos, seq![0x18u8, 0x53, 0x80, 0x67])
        || occurs_at(d, pos, seq![0x16u8, 0x54, 0xAE, 0x6B]) || d[pos] == 0xAE || d[pos] == 0xE0
}

/// `s` with what the element at `pos`, of payload `[p, e)`, tells noted,
/// for an element that is no walked master.
pub open spec fn with_element(d: Seq<u8>, pos: int, p: int, e: int, s: Seen) -> Seen {
    if occurs_at(d, pos, seq![0x42u8, 0x82]) {
        if e - p == 4 && occurs_at(d, p, seq![0x77u8, 0x65, 0x62, 0x6D]) {
            Seen { webm: true, ..s }
        } else if e - p == 8 && occurs_at(d, p, seq![0x6Du8, 0x61, 0x74, 0x72, 0x6F, 0x73, 0x6B, 0x61]) {
            Seen { matroska: true, ..s }
        } else {
            s
        }
    } else if d[pos] == 0x83 {
        if uint_value(d, p, e) == Some(1int) {
            Seen { video: true, ..s }
        } else if uint_value(d, p, e) == Some(2int) {
            Seen { audio: true, ..s }
        } else if uint_value(d, p, e) == Some(0x11int) {
            Seen { subtitle: true, ..s }
        } else {
            s
        }
    } else if occurs_at(d, pos, seq![0x53u8, 0xB8]) {
        Seen { stereo: true, ..s }
    } else {
        s
    }
}

/// What a walk of the elements in `[pos, end)` notes, descending into walked
/// masters while `depth` allows; a malformed element ends the walk at its
/// level.
pub open spec fn seen_in(d: Seq<u8>, pos: int, end: int, depth: nat, s: Seen) -> Seen
    decreases depth, end - pos,
{
    if pos < 0 || pos >= end || end > d.len() {
        s
    } else {
        match element_span(d, pos, end) {
            None => s,
            Some((p, e)) => {
                let leaf = occurs_at(d, pos, seq![0x42u8, 0x82]) || d[pos] == 0x83 || occurs_at(
                    d,
                    pos,
                    seq![0x53u8, 0xB8],
                );
                let s1 = if leaf {
                    with_element(d, pos, p, e, s)
                } else if depth > 0 && is_walked_master(d, pos) {
                    seen_in(d, p, e, (depth - 1) as nat, s)
                } else {
                    s
                };
                if e > pos {
                    seen_in(d, e, end, depth, s1)
                } else {
                    s1
                }
            },
        }
    }
}

/// What the element-tree reader answers for `d`.
pub open spec fn ebml_of(d: Seq<u8>) -> Option<FileFormat> {
    seen_format(
        seen_in(
            d,
            0,
            d.len() as int,
            MAX_DEPTH as nat,
            Seen { webm: false, matroska: false, video: false, audio: false, subtitle: false, stereo: false },
        ),
    )
}

fn width_of(b: u8) -> (r: usize)
    ensures
        r as int == vint_width(b),
{
    if b >= 0x80 {
        1
    } else if b >= 0x40 {
        2
    } else if b >= 0x20 {
        3
    } else if b >= 0x10 {
        4
    } else if b >= 0x08 {
        5
    } else if b >= 0x04 {
        6
    } else if b >= 0x02 {
        7
    } else if b >= 0x01 {
        8
    } else {
        0
    }
}

/// The value bits of a variable-length integer's first byte: the byte with
/// its width marker cleared.
fn lead_bits(b: u8) -> (r: u8)
    ensures
        r as int == lead_value(b),
{
    if b >= 0x80 {
        b - 0x80
    } else if b >= 0x40 {
        b - 0x40
    } else if b >= 0x20 {
        b - 0x20
    } else if b >= 0x10 {
        b - 0x10
    } else if b >= 0x08 {
        b - 0x08
    } else if b >= 0x04 {
        b - 0x04
    } else if b >= 0x02 {
        b - 0x02
    } else if b >= 0x01 {
        b - 0x01
    } else {
        0
    }
}

fn format_of_seen(s: Seen) -> (r: Option<FileFormat>)
    ensures
        r == seen_format(s),
{
    if s.webm {
        Some(FileFormat::Webm)
    } else if !s.matroska {
        None
    } else if s.video && s.stereo {
        Some(FileFormat::Matroska3dVideo)
    } else if s.video {
        Some(FileFormat::MatroskaVideo)
    } else if s.audio {
        Some(FileFormat::MatroskaAudio)
    } else if s.subtitle {
        Some(FileFormat::MatroskaSubtitles)
    } else {
        None
    }
}

/// The element at `pos`: where its payload starts and where it ends, its
/// end clamped to `end` where the size runs past it (as an unknown size
/// does). `None` where the ID or size is malformed or cut short.
fn element_at(d: &[u8], pos: usize, end: usize) -> (r: Option<(usize, usize)>)
    requires
        end <= d@.len(),
        pos < end,
    ensures
        r matches Some((p, e)) ==> element_span(d@, pos as int, end as int) == Some((p as int, e as int)),
        r is None ==> element_span(d@, pos as int, end as int) is None,
        r matches Some((p, e)) ==> pos + 2 <= p <= e <= end,
{
    let id_width = width_of(d[pos]);
    if id_width == 0 || id_width > 4 || id_width >= end - pos {
        return None;
    }
    let sp = pos + id_width;
    let size_width = width_of(d[sp]);
    if size_width == 0 || size_width > end - sp {
        return None;
    }
    let p = sp + size_width;
    let mut size: u64 = lead_bits(d[sp]) as u64;
    let mut i: usize = 1;
    while i < size_width
        invariant
            1 <= i <= size_width <= 8,
            sp + size_width <= end <= d@.len(),
            pos + 2 <= p <= end,
            p == sp + size_width,
            pos < end,
            sp as int == pos + vint_width(d@[pos as int]),
            1 <= vint_width(d@[pos as int]) <= 4,
            vint_width(d@[pos as int]) < end - pos,
            size_width as int == vint_width(d@[sp as int]),
            be_tail(d@, sp + 1, p as int, lead_value(d@[sp as int])) == be_tail(d@, sp + i, p as int, size as int),
        decreases size_width - i,
    {
        if size >= BYTE_ROOM {
            return Some((p, end));
        }
        size = size * 256 + d[sp + i] as u64;
        i += 1;
    }
    let room = (end - p) as u64;
    let e = if size > room { end } else { p + size as usize };
    Some((p, e))
}

/// The unsigned value of the payload in `[p, e)`, or `None` past eight bytes.
fn uint_at(d: &[u8], p: usize, e: usize) -> (r: Option<u64>)
    requires
        p <= e <= d@.len(),
    ensures
        r matches Some(v) ==> uint_value(d@, p as int, e as int) == Some(v as int),
        r is None ==> uint_value(d@, p as int, e as int) is None,
{
    if e - p > 8 {
        return None;
    }
    let mut v: u64 = 0;
    let mut i = p;
    while i < e
        invariant
            p <= i <= e <= d@.len(),
            e - p <= 8,
            uint_value(d@, p as int, e as int) == be_tail(d@, i as int, e as int, v as int),
        decreases e - i,
    {
        if v >= BYTE_ROOM {
            return None;
        }
        v = v * 256 + d[i] as u64;
        i += 1;
    }
    Some(v)
}

/// Walks the elements in `[start, end)`, descending into the EBML header,
/// segment, tracks, track entries and video settings while `depth` allows.
fn walk(d: &[u8], start: usize, end: usize, depth: u32, s: Seen) -> (r: Seen)
    requires
        end <= d@.len(),
    ensures
        r == seen_in(d@, start as int, end as int, depth as nat, s),
    decreases depth, end - start,
{
    let mut acc = s;
    let mut pos = start;
    while pos < end
        invariant
            end <= d@.len(),
            seen_in(d@, start as int, end as int, depth as nat, s) == seen_in(d@, pos as int, end as int, depth as nat, acc),
        decreases end - pos,
    {
        let (p, e) = match element_at(d, pos, end) {
            Some(x) => x,
            None => return acc,
        };
        if has_at(d, pos, &[0x42u8, 0x82]) {
            let len = e - p;
            if len == 4 && has_at(d, p, &[0x77u8, 0x65, 0x62, 0x6D]) {
                acc = Seen { webm: true, ..acc };
            } else if len == 8 && has_at(d, p, &[0x6Du8, 0x61, 0x74, 0x72, 0x6F, 0x73, 0x6B, 0x61]) {
                acc = Seen { matroska: true, ..acc };
            }
        } else if d[pos] == 0x83 {
            match uint_at(d, p, e) {
                Some(1) => acc = Seen { video: true, ..acc },
                Some(2) => acc = Seen { audio: true, ..acc },
                Some(0x11) => acc = Seen { subtitle: true, ..acc },
                _ => {},
            }
        } else if has_at(d, pos, &[0x53u8, 0xB8]) {
            acc = Seen { stereo: true, ..acc };
        } else if depth > 0 && (has_at(d, pos, &[0x1Au8, 0x45, 0xDF, 0xA3]) || has_at(
            d,
            pos,
            &[0x18u8, 0x53, 0x80, 0x67],
        ) || has_at(d, pos, &[0x16u8, 0x54, 0xAE, 0x6B]) || d[pos] == 0xAE || d[pos] == 0xE0) {
            acc = walk(d, p, e, depth - 1, acc);
        }
        pos = e;
    }
    acc
}

/// Reads an EBML stream: the `webm` document type selects WebM; for the
/// `matroska` document type the track types decide. Any other document type,
/// or Matroska with no track of a known type, leaves it unresolved.
pub fn from_ebml(d: &[u8]) -> (r: Option<FileFormat>)
    ensures
        r == ebml_of(d@),
        r matches Some(g) ==> ebml_family(g),
{
    let none = Seen { webm: false, matroska: false, video: false, audio: false, subtitle: false, stereo: false };
    let s = walk(d, 0, d.len(), MAX_DEPTH, none);
    format_of_seen(s)
}

} // verus!
