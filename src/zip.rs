//! The archive-entry reader: which ZIP-based format an archive is, from the
//! names in its central directory.

use vstd::prelude::*;
use crate::bytes::{has_at, le16, le32, occurs_at, u16_le, u32_le};
use crate::format::FileFormat;

verus! {

/// Length of the end-of-central-directory record without its comment.
pub const EOCD_LEN: usize = 22;

/// The longest comment that the end-of-central-directory record can carry.
pub const MAX_COMMENT_LEN: usize = 65535;

/// Length of a central-directory header before its variable fields.
pub const CENTRAL_HEADER_LEN: usize = 46;

/// Length of a local file header before its variable fields.
pub const LOCAL_HEADER_LEN: usize = 30;

/// The end-of-central-directory signature, `PK\x05\x06`.
pub open spec fn eocd_sig() -> Seq<u8> {
    seq![0x50u8, 0x4B, 0x05, 0x06]
}

/// Positions where an end-of-central-directory record may start in a stream
/// of `len` bytes: its fixed part fits, followed by at most a full comment.
pub open spec fn eocd_candidate(len: int, p: int) -> bool {
    0 <= p && p + EOCD_LEN <= len && len - EOCD_LEN - p <= MAX_COMMENT_LEN
}

/// `d` has an end-of-central-directory record where one may start.
pub open spec fn has_eocd(d: Seq<u8>) -> bool {
    exists|p: int| eocd_candidate(d.len() as int, p) && #[trigger] occurs_at(d, p, eocd_sig())
}

/// The format that an entry name alone marks: an Office Open XML part
/// directory, or a manifest or descriptor file that names a package format.
pub open spec fn entry_marker(n: Seq<u8>) -> Option<FileFormat> {
    if occurs_at(n, 0, seq![0x77u8, 0x6F, 0x72, 0x64, 0x2F]) {
        Some(FileFormat::OfficeOpenXmlDocument)
    } else if occurs_at(n, 0, seq![0x78u8, 0x6C, 0x2F]) {
        Some(FileFormat::OfficeOpenXmlSpreadsheet)
    } else if occurs_at(n, 0, seq![0x70u8, 0x70, 0x74, 0x2F]) {
        Some(FileFormat::OfficeOpenXmlPresentation)
    } else if occurs_at(n, 0, seq![0x76u8, 0x69, 0x73, 0x69, 0x6F, 0x2F]) {
        Some(FileFormat::OfficeOpenXmlDrawing)
    } else if n.len() == 19 && occurs_at(n, 0, seq![0x41u8, 0x6E, 0x64, 0x72, 0x6F, 0x69, 0x64, 0x4D, 0x61, 0x6E, 0x69, 0x66, 0x65, 0x73, 0x74, 0x2E, 0x78, 0x6D, 0x6C]) {
        Some(FileFormat::AndroidPackage)
    } else if n.len() == 24 && occurs_at(n, 0, seq![0x4Du8, 0x45, 0x54, 0x41, 0x2D, 0x49, 0x4E, 0x46, 0x2F, 0x61, 0x70, 0x70, 0x6C, 0x69, 0x63, 0x61, 0x74, 0x69, 0x6F, 0x6E, 0x2E, 0x78, 0x6D, 0x6C]) {
        Some(FileFormat::EnterpriseApplicationArchive)
    } else if occurs_at(n, 0, seq![0x57u8, 0x45, 0x42, 0x2D, 0x49, 0x4E, 0x46, 0x2F]) {
        Some(FileFormat::WebApplicationArchive)
    } else if n.len() == 16 && occurs_at(n, 0, seq![0x41u8, 0x70, 0x70, 0x4D, 0x61, 0x6E, 0x69, 0x66, 0x65, 0x73, 0x74, 0x2E, 0x78, 0x61, 0x6D, 0x6C]) {
        Some(FileFormat::Xap)
    } else if n.len() == 22 && occurs_at(n, 0, seq![0x65u8, 0x78, 0x74, 0x65, 0x6E, 0x73, 0x69, 0x6F, 0x6E, 0x2E, 0x76, 0x73, 0x69, 0x78, 0x6D, 0x61, 0x6E, 0x69, 0x66, 0x65, 0x73, 0x74]) {
        Some(FileFormat::MicrosoftVisualStudioExtension)
    } else if n.len() == 11 && occurs_at(n, 0, seq![0x69u8, 0x6E, 0x73, 0x74, 0x61, 0x6C, 0x6C, 0x2E, 0x72, 0x64, 0x66]) {
        Some(FileFormat::XpInstall)
    } else if n.len() == 16 && occurs_at(n, 0, seq![0x33u8, 0x44, 0x2F, 0x33, 0x64, 0x6D, 0x6F, 0x64, 0x65, 0x6C, 0x2E, 0x6D, 0x6F, 0x64, 0x65, 0x6C]) {
        Some(FileFormat::ThreeDimensionalManufacturingFormat)
    } else {
        None
    }
}

/// The format that the content of a `mimetype` entry names.
pub open spec fn mimetype_marker(c: Seq<u8>) -> Option<FileFormat> {
    if occurs_at(c, 0, seq![0x61u8, 0x70, 0x70, 0x6C, 0x69, 0x63, 0x61, 0x74, 0x69, 0x6F, 0x6E, 0x2F, 0x65, 0x70, 0x75, 0x62, 0x2B, 0x7A, 0x69, 0x70]) {
        Some(FileFormat::ElectronicPublication)
    } else if occurs_at(c, 0, seq![0x61u8, 0x70, 0x70, 0x6C, 0x69, 0x63, 0x61, 0x74, 0x69, 0x6F, 0x6E, 0x2F, 0x76, 0x6E, 0x64, 0x2E, 0x6F, 0x61, 0x73, 0x69, 0x73, 0x2E, 0x6F, 0x70, 0x65, 0x6E, 0x64, 0x6F, 0x63, 0x75, 0x6D, 0x65, 0x6E, 0x74, 0x2E, 0x74, 0x65, 0x78, 0x74]) {
        Some(FileFormat::OpenDocumentText)
    } else if occurs_at(c, 0, seq![0x61u8, 0x70, 0x70, 0x6C, 0x69, 0x63, 0x61, 0x74, 0x69, 0x6F, 0x6E, 0x2F, 0x76, 0x6E, 0x64, 0x2E, 0x6F, 0x61, 0x73, 0x69, 0x73, 0x2E, 0x6F, 0x70, 0x65, 0x6E, 0x64, 0x6F, 0x63, 0x75, 0x6D, 0x65, 0x6E, 0x74, 0x2E, 0x73, 0x70, 0x72, 0x65, 0x61, 0x64, 0x73, 0x68, 0x65, 0x65, 0x74]) {
        Some(FileFormat::OpenDocumentSpreadsheet)
    } else if occurs_at(c, 0, seq![0x61u8, 0x70, 0x70, 0x6C, 0x69, 0x63, 0x61, 0x74, 0x69, 0x6F, 0x6E, 0x2F, 0x76, 0x6E, 0x64, 0x2E, 0x6F, 0x61, 0x73, 0x69, 0x73, 0x2E, 0x6F, 0x70, 0x65, 0x6E, 0x64, 0x6F, 0x63, 0x75, 0x6D, 0x65, 0x6E, 0x74, 0x2E, 0x70, 0x72, 0x65, 0x73, 0x65, 0x6E, 0x74, 0x61, 0x74, 0x69, 0x6F, 0x6E]) {
        Some(FileFormat::OpenDocumentPresentation)
    } else if occurs_at(c, 0, seq![0x61u8, 0x70, 0x70, 0x6C, 0x69, 0x63, 0x61, 0x74, 0x69, 0x6F, 0x6E, 0x2F, 0x76, 0x6E, 0x64, 0x2E, 0x6F, 0x61, 0x73, 0x69, 0x73, 0x2E, 0x6F, 0x70, 0x65, 0x6E, 0x64, 0x6F, 0x63, 0x75, 0x6D, 0x65, 0x6E, 0x74, 0x2E, 0x67, 0x72, 0x61, 0x70, 0x68, 0x69, 0x63, 0x73]) {
        Some(FileFormat::OpenDocumentGraphics)
    } else {
        None
    }
}

/// The name of the entry whose stored content names an OpenDocument or EPUB
/// format.
pub open spec fn is_mimetype_name(n: Seq<u8>) -> bool {
    n.len() == 8 && occurs_at(n, 0, seq![0x6Du8, 0x69, 0x6D, 0x65, 0x74, 0x79, 0x70, 0x65])
}

/// The name of a Java manifest, which marks a Java archive unless another
/// entry marks something more specific.
pub open spec fn is_jar_manifest_name(n: Seq<u8>) -> bool {
    n.len() == 20 && occurs_at(n, 0, seq![0x4Du8, 0x45, 0x54, 0x41, 0x2D, 0x49, 0x4E, 0x46, 0x2F, 0x4D, 0x41, 0x4E, 0x49, 0x46, 0x45, 0x53, 0x54, 0x2E, 0x4D, 0x46])
}

/// The formats that the archive-entry reader names.
pub open spec fn zip_family(g: FileFormat) -> bool {
    g == FileFormat::Zip || g == FileFormat::JavaArchive || mimetype_marker_names(g)
        || entry_marker_names(g)
}

/// `g` is named by some entry name.
pub open spec fn entry_marker_names(g: FileFormat) -> bool {
    exists|n: Seq<u8>| #[trigger] entry_marker(n) == Some(g)
}

/// `g` is named by some `mimetype` content.
pub open spec fn mimetype_marker_names(g: FileFormat) -> bool {
    exists|c: Seq<u8>| #[trigger] mimetype_marker(c) == Some(g)
}

/// The format that the entry name `n` marks.
pub fn entry_marker_of(n: &[u8]) -> (r: Option<FileFormat>)
    ensures
        r == entry_marker(n@),
{
    if has_at(n, 0, &[0x77u8, 0x6F, 0x72, 0x64, 0x2F]) {
        Some(FileFormat::OfficeOpenXmlDocument)
    } else if has_at(n, 0, &[0x78u8, 0x6C, 0x2F]) {
        Some(FileFormat::OfficeOpenXmlSpreadsheet)
    } else if has_at(n, 0, &[0x70u8, 0x70, 0x74, 0x2F]) {
        Some(FileFormat::OfficeOpenXmlPresentation)
    } else if has_at(n, 0, &[0x76u8, 0x69, 0x73, 0x69, 0x6F, 0x2F]) {
        Some(FileFormat::OfficeOpenXmlDrawing)
    } else if n.len() == 19 && has_at(n, 0, &[0x41u8, 0x6E, 0x64, 0x72, 0x6F, 0x69, 0x64, 0x4D, 0x61, 0x6E, 0x69, 0x66, 0x65, 0x73, 0x74, 0x2E, 0x78, 0x6D, 0x6C]) {
        Some(FileFormat::AndroidPackage)
    } else if n.len() == 24 && has_at(n, 0, &[0x4Du8, 0x45, 0x54, 0x41, 0x2D, 0x49, 0x4E, 0x46, 0x2F, 0x61, 0x70, 0x70, 0x6C, 0x69, 0x63, 0x61, 0x74, 0x69, 0x6F, 0x6E, 0x2E, 0x78, 0x6D, 0x6C]) {
        Some(FileFormat::EnterpriseApplicationArchive)
    } else if has_at(n, 0, &[0x57u8, 0x45, 0x42, 0x2D, 0x49, 0x4E, 0x46, 0x2F]) {
        Some(FileFormat::WebApplicationArchive)
    } else if n.len() == 16 && has_at(n, 0, &[0x41u8, 0x70, 0x70, 0x4D, 0x61, 0x6E, 0x69, 0x66, 0x65, 0x73, 0x74, 0x2E, 0x78, 0x61, 0x6D, 0x6C]) {
        Some(FileFormat::Xap)
    } else if n.len() == 22 && has_at(n, 0, &[0x65u8, 0x78, 0x74, 0x65, 0x6E, 0x73, 0x69, 0x6F, 0x6E, 0x2E, 0x76, 0x73, 0x69, 0x78, 0x6D, 0x61, 0x6E, 0x69, 0x66, 0x65, 0x73, 0x74]) {
        Some(FileFormat::MicrosoftVisualStudioExtension)
    } else if n.len() == 11 && has_at(n, 0, &[0x69u8, 0x6E, 0x73, 0x74, 0x61, 0x6C, 0x6C, 0x2E, 0x72, 0x64, 0x66]) {
        Some(FileFormat::XpInstall)
    } else if n.len() == 16 && has_at(n, 0, &[0x33u8, 0x44, 0x2F, 0x33, 0x64, 0x6D, 0x6F, 0x64, 0x65, 0x6C, 0x2E, 0x6D, 0x6F, 0x64, 0x65, 0x6C]) {
        Some(FileFormat::ThreeDimensionalManufacturingFormat)
    } else {
        None
    }
}

/// The format that the `mimetype` content `c` names.
pub fn mimetype_marker_of(c: &[u8]) -> (r: Option<FileFormat>)
    ensures
        r == mimetype_marker(c@),
{
    if has_at(c, 0, &[0x61u8, 0x70, 0x70, 0x6C, 0x69, 0x63, 0x61, 0x74, 0x69, 0x6F, 0x6E, 0x2F, 0x65, 0x70, 0x75, 0x62, 0x2B, 0x7A, 0x69, 0x70]) {
        Some(FileFormat::ElectronicPublication)
    } else if has_at(c, 0, &[0x61u8, 0x70, 0x70, 0x6C, 0x69, 0x63, 0x61, 0x74, 0x69, 0x6F, 0x6E, 0x2F, 0x76, 0x6E, 0x64, 0x2E, 0x6F, 0x61, 0x73, 0x69, 0x73, 0x2E, 0x6F, 0x70, 0x65, 0x6E, 0x64, 0x6F, 0x63, 0x75, 0x6D, 0x65, 0x6E, 0x74, 0x2E, 0x74, 0x65, 0x78, 0x74]) {
        Some(FileFormat::OpenDocumentText)
    } else if has_at(c, 0, &[0x61u8, 0x70, 0x70, 0x6C, 0x69, 0x63, 0x61, 0x74, 0x69, 0x6F, 0x6E, 0x2F, 0x76, 0x6E, 0x64, 0x2E, 0x6F, 0x61, 0x73, 0x69, 0x73, 0x2E, 0x6F, 0x70, 0x65, 0x6E, 0x64, 0x6F, 0x63, 0x75, 0x6D, 0x65, 0x6E, 0x74, 0x2E, 0x73, 0x70, 0x72, 0x65, 0x61, 0x64, 0x73, 0x68, 0x65, 0x65, 0x74]) {
        Some(FileFormat::OpenDocumentSpreadsheet)
    } else if has_at(c, 0, &[0x61u8, 0x70, 0x70, 0x6C, 0x69, 0x63, 0x61, 0x74, 0x69, 0x6F, 0x6E, 0x2F, 0x76, 0x6E, 0x64, 0x2E, 0x6F, 0x61, 0x73, 0x69, 0x73, 0x2E, 0x6F, 0x70, 0x65, 0x6E, 0x64, 0x6F, 0x63, 0x75, 0x6D, 0x65, 0x6E, 0x74, 0x2E, 0x70, 0x72, 0x65, 0x73, 0x65, 0x6E, 0x74, 0x61, 0x74, 0x69, 0x6F, 0x6E]) {
        Some(FileFormat::OpenDocumentPresentation)
    } else if has_at(c, 0, &[0x61u8, 0x70, 0x70, 0x6C, 0x69, 0x63, 0x61, 0x74, 0x69, 0x6F, 0x6E, 0x2F, 0x76, 0x6E, 0x64, 0x2E, 0x6F, 0x61, 0x73, 0x69, 0x73, 0x2E, 0x6F, 0x70, 0x65, 0x6E, 0x64, 0x6F, 0x63, 0x75, 0x6D, 0x65, 0x6E, 0x74, 0x2E, 0x67, 0x72, 0x61, 0x70, 0x68, 0x69, 0x63, 0x73]) {
        Some(FileFormat::OpenDocumentGraphics)
    } else {
        None
    }
}

fn is_mimetype(n: &[u8]) -> (r: bool)
    ensures
        r == is_mimetype_name(n@),
{
    n.len() == 8 && has_at(n, 0, &[0x6Du8, 0x69, 0x6D, 0x65, 0x74, 0x79, 0x70, 0x65])
}

fn is_jar_manifest(n: &[u8]) -> (r: bool)
    ensures
        r == is_jar_manifest_name(n@),
{
    n.len() == 20 && has_at(n, 0, &[0x4Du8, 0x45, 0x54, 0x41, 0x2D, 0x49, 0x4E, 0x46, 0x2F, 0x4D, 0x41, 0x4E, 0x49, 0x46, 0x45, 0x53, 0x54, 0x2E, 0x4D, 0x46])
}

/// `p` is where the last end-of-central-directory record of `d` starts: the
/// one nearest the end, as a backward scan meets it first.
pub open spec fn is_last_eocd(d: Seq<u8>, p: int) -> bool {
    &&& eocd_candidate(d.len() as int, p)
    &&& occurs_at(d, p, eocd_sig())
    &&& forall|q: int| p < q && eocd_candidate(d.len() as int, q) ==> !#[trigger] occurs_at(d, q, eocd_sig())
}

/// The format that the stored content of the entry whose local header starts
/// at `local` names, where that header is whole.
pub open spec fn mimetype_at(d: Seq<u8>, local: int) -> Option<FileFormat> {
    if occurs_at(d, local, seq![0x50u8, 0x4B, 0x03, 0x04]) && local + LOCAL_HEADER_LEN <= d.len() {
        let start = local + LOCAL_HEADER_LEN + le16(d, local + 26) + le16(d, local + 28);
        if start <= d.len() {
            mimetype_marker(d.subrange(start, d.len() as int))
        } else {
            None
        }
    } else {
        None
    }
}

/// The outcome of reading `left` central-directory headers from `pos` on.
/// Every header must be whole, else the scan is unresolved. `decided` is the
/// format that an earlier entry decided, if any: the first entry whose name
/// marks a format, or that is a `mimetype` entry whose content names one,
/// decides. A Java manifest turns `fallback` to a Java archive; `fallback`
/// answers where no entry decides.
pub open spec fn central_scan(
    d: Seq<u8>,
    pos: int,
    left: int,
    fallback: FileFormat,
    decided: Option<FileFormat>,
) -> Option<FileFormat>
    decreases left,
{
    if left <= 0 {
        match decided {
            Some(g) => Some(g),
            None => Some(fallback),
        }
    } else if !header_whole(d, pos) {
        None
    } else {
        let name = header_name(d, pos);
        let now = if decided is Some {
            decided
        } else if entry_marker(name) is Some {
            entry_marker(name)
        } else if is_mimetype_name(name) && mimetype_at(d, le32(d, pos + 42)) is Some {
            mimetype_at(d, le32(d, pos + 42))
        } else {
            None
        };
        central_scan(
            d,
            pos + header_len(d, pos),
            left - 1,
            if is_jar_manifest_name(name) { FileFormat::JavaArchive } else { fallback },
            now,
        )
    }
}

/// The `left` central-directory headers from `pos` on are all whole.
pub open spec fn headers_whole(d: Seq<u8>, pos: int, left: int) -> bool
    decreases left,
{
    left <= 0 || (header_whole(d, pos) && headers_whole(d, pos + header_len(d, pos), left - 1))
}

/// The central directory that the last end-of-central-directory record
/// declares has all its headers whole.
pub open spec fn directory_whole(d: Seq<u8>) -> bool {
    headers_whole(d, directory_start(d), directory_count(d))
}

/// What the archive-entry reader answers for `d`: the scan of as many
/// central-directory headers as the last end-of-central-directory record
/// declares, from the offset it gives; unresolved where there is no record.
pub open spec fn zip_of(d: Seq<u8>) -> Option<FileFormat> {
    if has_eocd(d) {
        central_scan(d, directory_start(d), directory_count(d), FileFormat::Zip, None)
    } else {
        None
    }
}

/// Where the last end-of-central-directory record says the central directory
/// starts.
pub open spec fn directory_start(d: Seq<u8>) -> int {
    le32(d, (choose|p: int| is_last_eocd(d, p)) + 16)
}

/// How many entries the last end-of-central-directory record declares.
pub open spec fn directory_count(d: Seq<u8>) -> int {
    le16(d, (choose|p: int| is_last_eocd(d, p)) + 10)
}

/// The length of the central-directory header at `q`, variable fields
/// included.
pub open spec fn header_len(d: Seq<u8>, q: int) -> int {
    CENTRAL_HEADER_LEN + le16(d, q + 28) + le16(d, q + 30) + le16(d, q + 32)
}

/// The central-directory header at `q` is whole.
pub open spec fn header_whole(d: Seq<u8>, q: int) -> bool {
    occurs_at(d, q, seq![0x50u8, 0x4B, 0x01, 0x02]) && q + CENTRAL_HEADER_LEN <= d.len() && q
        + header_len(d, q) <= d.len()
}

/// The entry name of the central-directory header at `q`.
pub open spec fn header_name(d: Seq<u8>, q: int) -> Seq<u8> {
    d.subrange(q + CENTRAL_HEADER_LEN, q + CENTRAL_HEADER_LEN + le16(d, q + 28))
}

/// The entry of the header at `q` decides the format: its name marks one, or
/// it is a `mimetype` entry whose content names one.
pub open spec fn header_decides(d: Seq<u8>, q: int) -> bool {
    entry_marker(header_name(d, q)) is Some || (is_mimetype_name(header_name(d, q)) && mimetype_at(
        d,
        le32(d, q + 42),
    ) is Some)
}

/// Where the `k`-th header from `pos` starts, where every header before it is
/// whole and decides nothing.
pub open spec fn header_at(d: Seq<u8>, pos: int, k: nat) -> Option<int>
    decreases k,
{
    if k == 0 {
        Some(pos)
    } else if header_whole(d, pos) && !header_decides(d, pos) {
        header_at(d, pos + header_len(d, pos), (k - 1) as nat)
    } else {
        None
    }
}

/// The scan is resolved exactly where all its headers are whole.
pub proof fn scan_resolved_iff_whole(
    d: Seq<u8>,
    pos: int,
    left: int,
    fallback: FileFormat,
    decided: Option<FileFormat>,
)
    ensures
        central_scan(d, pos, left, fallback, decided) is Some <==> headers_whole(d, pos, left),
    decreases left,
{
    if left > 0 && header_whole(d, pos) {
        let name = header_name(d, pos);
        let now = if decided is Some {
            decided
        } else if entry_marker(name) is Some {
            entry_marker(name)
        } else if is_mimetype_name(name) && mimetype_at(d, le32(d, pos + 42)) is Some {
            mimetype_at(d, le32(d, pos + 42))
        } else {
            None
        };
        scan_resolved_iff_whole(
            d,
            pos + header_len(d, pos),
            left - 1,
            if is_jar_manifest_name(name) { FileFormat::JavaArchive } else { fallback },
            now,
        );
    }
}

/// Once an entry has decided, a resolved scan answers that decision.
proof fn decision_stands(d: Seq<u8>, pos: int, left: int, fallback: FileFormat, g: FileFormat)
    ensures
        central_scan(d, pos, left, fallback, Some(g)) is Some ==> central_scan(d, pos, left, fallback, Some(g))
            == Some(g),
    decreases left,
{
    if left > 0 && header_whole(d, pos) {
        let name = header_name(d, pos);
        decision_stands(
            d,
            pos + header_len(d, pos),
            left - 1,
            if is_jar_manifest_name(name) { FileFormat::JavaArchive } else { fallback },
            g,
        );
    }
}

/// A header within the first `left` whose entry name starts with the Office
/// Open XML word-processing part directory, and before which no entry
/// decides, makes a resolved scan name an Office Open XML document.
pub proof fn word_part_decides_scan(d: Seq<u8>, pos: int, left: int, fallback: FileFormat, k: nat)
    requires
        k < left,
        header_at(d, pos, k) matches Some(q) && header_whole(d, q) && occurs_at(
            header_name(d, q),
            0,
            seq![0x77u8, 0x6F, 0x72, 0x64, 0x2F],
        ),
    ensures
        central_scan(d, pos, left, fallback, None) is Some ==> central_scan(d, pos, left, fallback, None)
            == Some(FileFormat::OfficeOpenXmlDocument),
    decreases k,
{
    let name = header_name(d, pos);
    let next_fallback = if is_jar_manifest_name(name) { FileFormat::JavaArchive } else { fallback };
    if k > 0 {
        word_part_decides_scan(d, pos + header_len(d, pos), left - 1, next_fallback, (k - 1) as nat);
    } else {
        decision_stands(d, pos + header_len(d, pos), left - 1, next_fallback, FileFormat::OfficeOpenXmlDocument);
    }
}

/// Finds the end-of-central-directory record, scanning backward from the
/// last place it may start; `None` where there is none.
fn find_eocd(d: &[u8]) -> (r: Option<usize>)
    ensures
        r matches Some(p) ==> is_last_eocd(d@, p as int),
        r is None ==> !has_eocd(d@),
{
    if d.len() < EOCD_LEN {
        assert forall|p: int| eocd_candidate(d@.len() as int, p) implies !#[trigger] occurs_at(d@, p, eocd_sig()) by {}
        return None;
    }
    let last = d.len() - EOCD_LEN;
    let lowest = if last > MAX_COMMENT_LEN { last - MAX_COMMENT_LEN } else { 0 };
    let mut p = last;
    while p > lowest
        invariant
            lowest <= p <= last,
            last + EOCD_LEN == d@.len(),
            lowest == (if last > MAX_COMMENT_LEN { last - MAX_COMMENT_LEN } else { 0 }),
            forall|q: int| p < q <= last ==> !#[trigger] occurs_at(d@, q, eocd_sig()),
        decreases p,
    {
        if has_at(d, p, &[0x50u8, 0x4B, 0x05, 0x06]) {
            return Some(p);
        }
        p -= 1;
    }
    if has_at(d, p, &[0x50u8, 0x4B, 0x05, 0x06]) {
        return Some(p);
    }
    assert forall|q: int| eocd_candidate(d@.len() as int, q) implies !#[trigger] occurs_at(d@, q, eocd_sig()) by {
        assert(lowest <= q <= last);
    }
    None
}

/// The format named by the content of the entry whose local header starts at
/// `local`, where that content is there to read.
fn mimetype_content(d: &[u8], local: usize) -> (r: Option<FileFormat>)
    ensures
        r == mimetype_at(d@, local as int),
{
    if !has_at(d, local, &[0x50u8, 0x4B, 0x03, 0x04]) || d.len() - local < LOCAL_HEADER_LEN {
        return None;
    }
    let name_len = match u16_le(d, local + 26) {
        Some(v) => v as usize,
        None => return None,
    };
    let extra_len = match u16_le(d, local + 28) {
        Some(v) => v as usize,
        None => return None,
    };
    let skip = LOCAL_HEADER_LEN + name_len + extra_len;
    if d.len() - local < skip {
        return None;
    }
    let start = local + skip;
    let content = &d[start..d.len()];
    mimetype_marker_of(content)
}

/// Reads the central directory of a ZIP stream. Every declared header must be
/// whole, else it is unresolved, as it is without an end-of-central-directory
/// record. Then the first entry whose name marks a format decides, or the
/// first `mimetype` entry whose content names one; a Java manifest alone marks
/// a Java archive; an archive with none of these is plain ZIP.
pub fn from_zip(d: &[u8]) -> (r: Option<FileFormat>)
    ensures
        r == zip_of(d@),
        !has_eocd(d@) ==> r is None,
        has_eocd(d@) ==> (r is Some <==> directory_whole(d@)),
        r matches Some(g) ==> zip_family(g),
{
    let eocd = match find_eocd(d) {
        Some(p) => p,
        None => return None,
    };
    assert(has_eocd(d@));
    let len = d.len();
    let count = match u16_le(d, eocd + 10) {
        Some(v) => v,
        None => return None,
    };
    let start = match u32_le(d, eocd + 16) {
        Some(v) => v,
        None => return None,
    };
    proof {
        let q = choose|q: int| is_last_eocd(d@, q);
        assert(is_last_eocd(d@, q));
        if q != eocd as int {
            if q < eocd as int {
                assert(!occurs_at(d@, eocd as int, eocd_sig()));
            } else {
                assert(!occurs_at(d@, q, eocd_sig()));
            }
        }
    }
    proof {
        scan_resolved_iff_whole(d@, directory_start(d@), directory_count(d@), FileFormat::Zip, None);
    }
    let mut pos = start as usize;
    let mut fallback = FileFormat::Zip;
    let mut decided: Option<FileFormat> = None;
    let mut i: u16 = 0;
    while i < count
        invariant
            i <= count,
            fallback == FileFormat::Zip || fallback == FileFormat::JavaArchive,
            decided matches Some(g) ==> zip_family(g),
            has_eocd(d@),
            len == d@.len(),
            zip_of(d@) == central_scan(d@, pos as int, count - i, fallback, decided),
            (zip_of(d@) is Some) == directory_whole(d@),
        decreases count - i,
    {
        if !has_at(d, pos, &[0x50u8, 0x4B, 0x01, 0x02]) || len - pos < CENTRAL_HEADER_LEN {
            return None;
        }
        let name_len = match u16_le(d, pos + 28) {
            Some(v) => v as usize,
            None => return None,
        };
        let extra_len = match u16_le(d, pos + 30) {
            Some(v) => v as usize,
            None => return None,
        };
        let comment_len = match u16_le(d, pos + 32) {
            Some(v) => v as usize,
            None => return None,
        };
        let local = match u32_le(d, pos + 42) {
            Some(v) => v as usize,
            None => return None,
        };
        let entry_len = CENTRAL_HEADER_LEN + name_len + extra_len + comment_len;
        if len - pos < entry_len {
            return None;
        }
        let name = &d[pos + CENTRAL_HEADER_LEN..pos + CENTRAL_HEADER_LEN + name_len];
        assert(header_len(d@, pos as int) == entry_len as int);
        assert(header_whole(d@, pos as int));
        assert(name@ == header_name(d@, pos as int));
        if decided.is_none() {
            let marked = entry_marker_of(name);
            if let Some(g) = marked {
                assert(entry_marker(name@) == Some(g));
                decided = marked;
            } else if is_mimetype(name) {
                let m = mimetype_content(d, local);
                if let Some(g) = m {
                    assert(mimetype_marker_names(g)) by {
                        let start = local + LOCAL_HEADER_LEN + le16(d@, local + 26) + le16(d@, local + 28);
                        assert(mimetype_marker(d@.subrange(start, d@.len() as int)) == Some(g));
                    }
                    decided = m;
                }
            }
        }
        if is_jar_manifest(name) {
            fallback = FileFormat::JavaArchive;
        }
        pos = pos + entry_len;
        i += 1;
    }
    match decided {
        Some(g) => Some(g),
        None => Some(fallback),
    }
}

/// The central-directory scan never names `Empty`.
pub proof fn central_scan_not_empty(
    d: Seq<u8>,
    pos: int,
    left: int,
    fallback: FileFormat,
    decided: Option<FileFormat>,
)
    requires
        fallback != FileFormat::Empty,
        decided != Some(FileFormat::Empty),
    ensures
        central_scan(d, pos, left, fallback, decided) != Some(FileFormat::Empty),
    decreases left,
{
    if left > 0 && header_whole(d, pos) {
        let name = header_name(d, pos);
        let now = if decided is Some {
            decided
        } else if entry_marker(name) is Some {
            entry_marker(name)
        } else if is_mimetype_name(name) && mimetype_at(d, le32(d, pos + 42)) is Some {
            mimetype_at(d, le32(d, pos + 42))
        } else {
            None
        };
        central_scan_not_empty(
            d,
            pos + header_len(d, pos),
            left - 1,
            if is_jar_manifest_name(name) { FileFormat::JavaArchive } else { fallback },
            now,
        );
    }
}

/// The archive-entry reader never names `Empty`.
pub proof fn zip_not_empty(d: Seq<u8>)
    ensures
        zip_of(d) != Some(FileFormat::Empty),
{
    if has_eocd(d) {
        central_scan_not_empty(d, directory_start(d), directory_count(d), FileFormat::Zip, None);
    }
}

} // verus!
