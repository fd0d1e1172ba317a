//! The chunk reader: which RealMedia file a stream is, from the MIME types of
//! its media-properties chunks.

use vstd::prelude::*;
use crate::bytes::{be32, has_at, occurs_at, u32_be};
use crate::format::FileFormat;

verus! {

/// Length of a chunk header: tag, size and version.
pub const CHUNK_HEADER_LEN: usize = 10;

/// Offset, in a media-properties chunk, of the stream-name length.
pub const STREAM_NAME_OFFSET: usize = 40;

/// The formats that the chunk reader names.
pub open spec fn rm_family(g: FileFormat) -> bool {
    g == FileFormat::Realvideo || g == FileFormat::Realaudio
}

/// The answer where the walk ends: RealAudio where an audio stream was met.
pub open spec fn rm_end(audio: bool) -> Option<FileFormat> {
    if audio {
        Some(FileFormat::Realaudio)
    } else {
        None
    }
}

/// The outcome of walking the chunks from `pos` on, `audio` telling whether
/// an audio stream was met before `pos`.
pub open spec fn rm_scan(d: Seq<u8>, pos: int, audio: bool) -> Option<FileFormat>
    decreases d.len() - pos,
{
    if pos < 0 || pos >= d.len() || d.len() - pos < CHUNK_HEADER_LEN {
        rm_end(audio)
    } else {
        let size = be32(d, pos + 4);
        if size < CHUNK_HEADER_LEN || size > d.len() - pos {
            rm_end(audio)
        } else {
            let mdpr = occurs_at(d, pos, seq![0x4Du8, 0x44, 0x50, 0x52]) && size > STREAM_NAME_OFFSET;
            let rel = STREAM_NAME_OFFSET + 1 + d[pos + STREAM_NAME_OFFSET] as int;
            let mime = pos + rel + 1;
            if mdpr && rel < size && occurs_at(d, mime, seq![0x76u8, 0x69, 0x64, 0x65, 0x6F, 0x2F]) {
                Some(FileFormat::Realvideo)
            } else {
                let heard = mdpr && rel < size && occurs_at(d, mime, seq![0x61u8, 0x75, 0x64, 0x69, 0x6F, 0x2F]);
                rm_scan(d, pos + size, audio || heard)
            }
        }
    }
}

/// What the chunk reader answers for `d`.
pub open spec fn rm_of(d: Seq<u8>) -> Option<FileFormat> {
    rm_scan(d, 0, false)
}

fn end_of(audio: bool) -> (r: Option<FileFormat>)
    ensures
        r == rm_end(audio),
{
    if audio {
        Some(FileFormat::Realaudio)
    } else {
        None
    }
}

/// Walks the chunks from the start of the stream: a media-properties chunk
/// with a `video/` MIME type selects RealVideo, else one with an `audio/`
/// MIME type selects RealAudio. Anything else, or a chunk shorter than its
/// header or running past the end, leaves it unresolved.
pub fn from_rm(d: &[u8]) -> (r: Option<FileFormat>)
    ensures
        r == rm_of(d@),
        r matches Some(g) ==> rm_family(g),
{
    let end = d.len();
    let mut audio = false;
    let mut pos: usize = 0;
    while pos < end
        invariant
            end == d@.len(),
            pos <= end,
            rm_of(d@) == rm_scan(d@, pos as int, audio),
        decreases end - pos,
    {
        if end - pos < CHUNK_HEADER_LEN {
            return end_of(audio);
        }
        let size = match u32_be(d, pos + 4) {
            Some(v) => v as usize,
            None => return end_of(audio),
        };
        if size < CHUNK_HEADER_LEN || size > end - pos {
            return end_of(audio);
        }
        if has_at(d, pos, &[0x4Du8, 0x44, 0x50, 0x52]) && size > STREAM_NAME_OFFSET {
            let name_len = d[pos + STREAM_NAME_OFFSET] as usize;
            let rel = STREAM_NAME_OFFSET + 1 + name_len;
            if rel < size {
                let mime = pos + rel + 1;
                if has_at(d, mime, &[0x76u8, 0x69, 0x64, 0x65, 0x6F, 0x2F]) {
                    return Some(FileFormat::Realvideo);
                }
                if has_at(d, mime, &[0x61u8, 0x75, 0x64, 0x69, 0x6F, 0x2F]) {
                    audio = true;
                }
            }
        }
        pos = pos + size;
    }
    end_of(audio)
}

proof fn rm_scan_not_empty(d: Seq<u8>, pos: int, audio: bool)
    ensures
        rm_scan(d, pos, audio) != Some(FileFormat::Empty),
    decreases d.len() - pos,
{
    if 0 <= pos < d.len() && d.len() - pos >= CHUNK_HEADER_LEN {
        let size = be32(d, pos + 4);
        if size >= CHUNK_HEADER_LEN && size <= d.len() - pos {
            rm_scan_not_empty(d, pos + size, true);
            rm_scan_not_empty(d, pos + size, audio);
        }
    }
}

/// The chunk reader never names `Empty`.
pub proof fn rm_not_empty(d: Seq<u8>)
    ensures
        rm_of(d) != Some(FileFormat::Empty),
{
    rm_scan_not_empty(d, 0, false);
}

} // verus!
