//! The box-tree reader: which MPEG-4 Part 14 format a file is, from its brand
//! and the handler types of its tracks.

use vstd::prelude::*;
use crate::bytes::{be32, has_at, occurs_at, u32_be};
use crate::format::FileFormat;

verus! {

/// How deep the walk descends: movie, track, media, handler.
pub const MAX_DEPTH: u32 = 3;

/// The kinds of track met in a walk.
#[derive(Clone, Copy)]
pub struct Tracks {
    /// A video track was met.
    pub video: bool,
    /// An audio track was met.
    pub audio: bool,
    /// A subtitle or timed-text track was met.
    pub subtitle: bool,
}

/// The formats that the box-tree reader names.
pub open spec fn mp4_family(g: FileFormat) -> bool {
    g == FileFormat::Mpeg4Part14 || g == FileFormat::Mpeg4Part14Audio || g
        == FileFormat::Mpeg4Part14Video || g == FileFormat::Mpeg4Part14Subtitles
}

/// The format that the track kinds select, where the brand selected none:
/// video over audio over subtitles.
pub open spec fn tracks_format(t: Tracks) -> FileFormat {
    if t.video {
        FileFormat::Mpeg4Part14Video
    } else if t.audio {
        FileFormat::Mpeg4Part14Audio
    } else if t.subtitle {
        FileFormat::Mpeg4Part14Subtitles
    } else {
        FileFormat::Mpeg4Part14
    }
}

/// The box at `pos` within `[pos, end)`: where its payload starts and where
/// it ends, or `None` where its size is below its header or runs past `end`.
/// A 32-bit size of 1 announces a 64-bit size after the type.
pub open spec fn box_span(d: Seq<u8>, pos: int, end: int) -> Option<(int, int)> {
    if pos > end || end - pos < 8 || end > d.len() || pos < 0 {
        None
    } else if be32(d, pos) == 1 {
        if end - pos < 16 || be32(d, pos + 8) != 0 || be32(d, pos + 12) < 16 || be32(d, pos + 12) > end - pos {
            None
        } else {
            Some((pos + 16, pos + be32(d, pos + 12)))
        }
    } else if be32(d, pos) < 8 || be32(d, pos) > end - pos {
        None
    } else {
        Some((pos + 8, pos + be32(d, pos)))
    }
}

/// `t` with the handler type of the handler box whose payload is `[p, e)`
/// noted.
pub open spec fn with_handler(d: Seq<u8>, p: int, e: int, t: Tracks) -> Tracks {
    if p > e || e - p < 12 {
        t
    } else if occurs_at(d, p + 8, seq![0x76u8, 0x69, 0x64, 0x65]) {
        Tracks { video: true, ..t }
    } else if occurs_at(d, p + 8, seq![0x73u8, 0x6F, 0x75, 0x6E]) {
        Tracks { audio: true, ..t }
    } else if occurs_at(d, p + 8, seq![0x73u8, 0x62, 0x74, 0x6C]) || occurs_at(d, p + 8, seq![0x73u8, 0x75, 0x62, 0x74])
        || occurs_at(d, p + 8, seq![0x74u8, 0x65, 0x78, 0x74]) {
        Tracks { subtitle: true, ..t }
    } else {
        t
    }
}

/// The box at `pos` is a movie, track or media box.
pub open spec fn is_track_container(d: Seq<u8>, pos: int) -> bool {
    occurs_at(d, pos + 4, seq![0x6Du8, 0x6F, 0x6F, 0x76]) || occurs_at(d, pos + 4, seq![0x74u8, 0x72, 0x61, 0x6B])
        || occurs_at(d, pos + 4, seq![0x6Du8, 0x64, 0x69, 0x61])
}

/// The track kinds noted by walking the boxes in `[pos, end)`, descending
/// into containers while `depth` allows; `None` where any box met has a size
/// of zero, below its header, or past the end of its parent.
pub open spec fn tracks_in(d: Seq<u8>, pos: int, end: int, depth: nat, t: Tracks) -> Option<Tracks>
    decreases depth, end - pos,
{
    if pos >= end {
        Some(t)
    } else {
        match box_span(d, pos, end) {
            None => None,
            Some((p, e)) => {
                let t1 = if occurs_at(d, pos + 4, seq![0x68u8, 0x64, 0x6C, 0x72]) {
                    Some(with_handler(d, p, e, t))
                } else if depth > 0 && is_track_container(d, pos) {
                    tracks_in(d, p, e, (depth - 1) as nat, t)
                } else {
                    Some(t)
                };
                match t1 {
                    None => None,
                    Some(t2) => if e > pos {
                        tracks_in(d, e, end, depth, t2)
                    } else {
                        Some(t2)
                    },
                }
            },
        }
    }
}

/// The file-type box at the head of `d`, whose payload starts at `p` and
/// ends at `e`, carries one of the audio-only brands.
pub open spec fn audio_brand(d: Seq<u8>, p: int, e: int) -> bool {
    occurs_at(d, 4, seq![0x66u8, 0x74, 0x79, 0x70]) && e - p >= 4 && (occurs_at(d, p, seq![0x4Du8, 0x34, 0x41, 0x20])
        || occurs_at(d, p, seq![0x4Du8, 0x34, 0x42, 0x20]) || occurs_at(d, p, seq![0x4Du8, 0x34, 0x50, 0x20]))
}

/// The file-type box at the head of `d` carries the video brand.
pub open spec fn video_brand(d: Seq<u8>, p: int, e: int) -> bool {
    occurs_at(d, 4, seq![0x66u8, 0x74, 0x79, 0x70]) && e - p >= 4 && occurs_at(d, p, seq![0x4Du8, 0x34, 0x56, 0x20])
}

/// What the box-tree reader answers for `d`: unresolved where any box of the
/// walk is malformed; otherwise an audio-only or video brand of the first box
/// decides, and failing that the track kinds.
pub open spec fn mp4_of(d: Seq<u8>) -> Option<FileFormat> {
    let empty = Tracks { video: false, audio: false, subtitle: false };
    match tracks_in(d, 0, d.len() as int, MAX_DEPTH as nat, empty) {
        None => None,
        Some(t) => match box_span(d, 0, d.len() as int) {
            None => None,
            Some((p, e)) => if audio_brand(d, p, e) {
                Some(FileFormat::Mpeg4Part14Audio)
            } else if video_brand(d, p, e) {
                Some(FileFormat::Mpeg4Part14Video)
            } else {
                Some(tracks_format(t))
            },
        },
    }
}

fn format_of_tracks(t: Tracks) -> (r: FileFormat)
    ensures
        r == tracks_format(t),
{
    if t.video {
        FileFormat::Mpeg4Part14Video
    } else if t.audio {
        FileFormat::Mpeg4Part14Audio
    } else if t.subtitle {
        FileFormat::Mpeg4Part14Subtitles
    } else {
        FileFormat::Mpeg4Part14
    }
}

/// The box at `pos` fits in `[pos, end)`: its payload start and its end, or
/// `None` where its size is below its header or runs past `end`. A 32-bit size
/// of 1 announces a 64-bit size after the type.
fn box_at(d: &[u8], pos: usize, end: usize) -> (r: Option<(usize, usize)>)
    requires
        end <= d@.len(),
    ensures
        r matches Some((p, e)) ==> box_span(d@, pos as int, end as int) == Some((p as int, e as int)),
        r is None ==> box_span(d@, pos as int, end as int) is None,
        r matches Some((p, e)) ==> pos + 8 <= p <= e <= end && pos < e,
        r is Some ==> pos + 4 <= end && be32(d@, pos as int) != 0,
{
    if pos > end || end - pos < 8 {
        return None;
    }
    let size32 = match u32_be(d, pos) {
        Some(v) => v,
        None => return None,
    };
    if size32 == 1 {
        if end - pos < 16 {
            return None;
        }
        let hi = match u32_be(d, pos + 8) {
            Some(v) => v,
            None => return None,
        };
        let lo = match u32_be(d, pos + 12) {
            Some(v) => v,
            None => return None,
        };
        if hi != 0 || (lo as usize) < 16 || lo as usize > end - pos {
            return None;
        }
        Some((pos + 16, pos + lo as usize))
    } else {
        if (size32 as usize) < 8 || size32 as usize > end - pos {
            return None;
        }
        Some((pos + 8, pos + size32 as usize))
    }
}

/// Notes the handler type of the handler box whose payload starts at `p`.
fn note_handler(d: &[u8], p: usize, e: usize, t: Tracks) -> (r: Tracks)
    requires
        e <= d@.len(),
    ensures
        r == with_handler(d@, p as int, e as int, t),
{
    if p > e || e - p < 12 {
        return t;
    }
    let h = p + 8;
    if has_at(d, h, &[0x76u8, 0x69, 0x64, 0x65]) {
        Tracks { video: true, ..t }
    } else if has_at(d, h, &[0x73u8, 0x6F, 0x75, 0x6E]) {
        Tracks { audio: true, ..t }
    } else if has_at(d, h, &[0x73u8, 0x62, 0x74, 0x6C]) || has_at(d, h, &[0x73u8, 0x75, 0x62, 0x74])
        || has_at(d, h, &[0x74u8, 0x65, 0x78, 0x74]) {
        Tracks { subtitle: true, ..t }
    } else {
        t
    }
}

/// Walks the boxes in `[start, end)`, descending into movie, track and media
/// boxes while `depth` allows, and notes each handler type met; `None` where
/// a box does not fit.
fn walk_tracks(d: &[u8], start: usize, end: usize, depth: u32, t: Tracks) -> (r: Option<Tracks>)
    requires
        end <= d@.len(),
    ensures
        r == tracks_in(d@, start as int, end as int, depth as nat, t),
    decreases depth, end - start,
{
    let mut acc = t;
    let mut pos = start;
    while pos < end
        invariant
            end <= d@.len(),
            tracks_in(d@, start as int, end as int, depth as nat, t) == tracks_in(
                d@,
                pos as int,
                end as int,
                depth as nat,
                acc,
            ),
        decreases end - pos,
    {
        let (p, e) = match box_at(d, pos, end) {
            Some(b) => b,
            None => return None,
        };
        if has_at(d, pos + 4, &[0x68u8, 0x64, 0x6C, 0x72]) {
            acc = note_handler(d, p, e, acc);
        } else if depth > 0 && (has_at(d, pos + 4, &[0x6Du8, 0x6F, 0x6F, 0x76]) || has_at(
            d,
            pos + 4,
            &[0x74u8, 0x72, 0x61, 0x6B],
        ) || has_at(d, pos + 4, &[0x6Du8, 0x64, 0x69, 0x61])) {
            acc = match walk_tracks(d, p, e, depth - 1, acc) {
                Some(inner) => inner,
                None => return None,
            };
        }
        pos = e;
    }
    Some(acc)
}

/// Reads an MPEG-4 Part 14 stream: every box met in the walk must fit, else
/// it is unresolved; an audio-only or video brand in the file-type box
/// decides; otherwise the handler types of the tracks do, video over audio
/// over subtitles.
pub fn from_mp4(d: &[u8]) -> (r: Option<FileFormat>)
    ensures
        r == mp4_of(d@),
        r matches Some(g) ==> mp4_family(g),
        d@.len() >= 4 && be32(d@, 0) == 0 ==> r is None,
{
    let end = d.len();
    let t = match walk_tracks(d, 0, end, MAX_DEPTH, Tracks { video: false, audio: false, subtitle: false }) {
        Some(t) => t,
        None => return None,
    };
    let (p, e) = match box_at(d, 0, end) {
        Some(b) => b,
        None => return None,
    };
    if has_at(d, 4, &[0x66u8, 0x74, 0x79, 0x70]) && e - p >= 4 {
        if has_at(d, p, &[0x4Du8, 0x34, 0x41, 0x20]) || has_at(d, p, &[0x4Du8, 0x34, 0x42, 0x20])
            || has_at(d, p, &[0x4Du8, 0x34, 0x50, 0x20]) {
            return Some(FileFormat::Mpeg4Part14Audio);
        }
        if has_at(d, p, &[0x4Du8, 0x34, 0x56, 0x20]) {
            return Some(FileFormat::Mpeg4Part14Video);
        }
    }
    Some(format_of_tracks(t))
}

} // verus!
