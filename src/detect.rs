//! Refinement dispatch and the whole detection: signature, then the container
//! reader, then the generic classifier.

use vstd::prelude::*;
use crate::asf::{asf_not_empty, asf_of, from_asf};
use crate::bytes::occurs_at;
use crate::cfb::{
    cfb_not_empty, cfb_of, dir_chain_whole, fat_in_stream, from_cfb, root_class_marker,
    root_entry_readable,
};
use crate::ebml::{ebml_of, from_ebml};
use crate::exe::{exe_of, from_exe};
use crate::format::FileFormat;
use crate::mp4::{from_mp4, mp4_of};
use crate::pdf::{from_pdf, pdf_of};
use crate::rm::{from_rm, rm_not_empty, rm_of};
use crate::signature::{from_signature, signature_of};
use crate::text::{char_width, from_generic, generic_of, is_text_ascii, text_from};
use crate::zip::{
    directory_count, directory_start, directory_whole, from_zip, scan_resolved_iff_whole, has_eocd, header_at, header_name, header_whole,
    word_part_decides_scan, zip_not_empty, zip_of,
};

verus! {

/// How many bytes from the start of the stream the signature stage reads.
pub const PREFIX_LEN: usize = 36870;

/// The part of the stream that the signature stage sees.
pub open spec fn prefix_of(d: Seq<u8>) -> Seq<u8> {
    if d.len() <= PREFIX_LEN { d } else { d.subrange(0, PREFIX_LEN as int) }
}

/// Containers whose coarse format is no answer on its own: when their reader
/// fails, the coarse format is dropped for the generic classifier.
pub open spec fn drops_coarse(f: FileFormat) -> bool {
    f == FileFormat::Zip || f == FileFormat::CompoundFileBinary || f
        == FileFormat::ExtensibleBinaryMetaLanguage || f == FileFormat::Mpeg4Part14
}

/// Containers whose coarse format is an answer on its own: when their reader
/// fails, the coarse format stands.
pub open spec fn keeps_coarse(f: FileFormat) -> bool {
    f == FileFormat::MsDosExecutable || f == FileFormat::PortableDocumentFormat || f
        == FileFormat::AdvancedSystemsFormat || f == FileFormat::Realmedia
}

/// What the reader for the coarse format `f` answers for the stream `d`; a
/// format that is no container passes through unchanged.
pub open spec fn refine_of(f: FileFormat, d: Seq<u8>) -> Option<FileFormat> {
    match f {
        FileFormat::MsDosExecutable => Some(exe_of(d)),
        FileFormat::PortableDocumentFormat => Some(pdf_of(d)),
        FileFormat::Zip => zip_of(d),
        FileFormat::CompoundFileBinary => cfb_of(d),
        FileFormat::ExtensibleBinaryMetaLanguage => ebml_of(d),
        FileFormat::Mpeg4Part14 => mp4_of(d),
        FileFormat::AdvancedSystemsFormat => asf_of(d),
        FileFormat::Realmedia => rm_of(d),
        _ => Some(f),
    }
}

/// The final answer from the coarse format, the reader's outcome and the
/// stream: no signature, or a failed reader of a container that drops its
/// coarse format, leads to the generic classifier.
pub open spec fn resolve_of(
    coarse: Option<FileFormat>,
    outcome: Option<FileFormat>,
    d: Seq<u8>,
    plain_text: bool,
) -> FileFormat {
    match coarse {
        None => generic_of(d, plain_text),
        Some(f) => match outcome {
            Some(g) => g,
            None => if keeps_coarse(f) {
                f
            } else {
                generic_of(d, plain_text)
            },
        },
    }
}

/// What detection answers for the stream `d`: `Empty` for no bytes;
/// otherwise the resolution of the signature match of its prefix with the
/// outcome of the matching reader.
pub open spec fn detect_of(d: Seq<u8>, plain_text: bool) -> FileFormat {
    if d.len() == 0 {
        FileFormat::Empty
    } else {
        match signature_of(prefix_of(d)) {
            None => generic_of(d, plain_text),
            Some(f) => resolve_of(Some(f), refine_of(f, d), d, plain_text),
        }
    }
}

/// Runs the reader for the coarse format `f` over the stream `d`; a format
/// that is no container passes through unchanged.
pub fn refine(f: FileFormat, d: &[u8]) -> (r: Option<FileFormat>)
    ensures
        r == refine_of(f, d@),
{
    match f {
        FileFormat::MsDosExecutable => Some(from_exe(d)),
        FileFormat::PortableDocumentFormat => Some(from_pdf(d)),
        FileFormat::Zip => from_zip(d),
        FileFormat::CompoundFileBinary => from_cfb(d),
        FileFormat::ExtensibleBinaryMetaLanguage => from_ebml(d),
        FileFormat::Mpeg4Part14 => from_mp4(d),
        FileFormat::AdvancedSystemsFormat => from_asf(d),
        FileFormat::Realmedia => from_rm(d),
        _ => Some(f),
    }
}

/// Combines the coarse format, the reader's outcome and the generic
/// classifier into the final answer.
pub fn resolve(
    coarse: Option<FileFormat>,
    outcome: Option<FileFormat>,
    d: &[u8],
    plain_text: bool,
) -> (r: FileFormat)
    ensures
        r == resolve_of(coarse, outcome, d@, plain_text),
{
    match coarse {
        None => from_generic(d, plain_text),
        Some(f) => match outcome {
            Some(g) => g,
            None => if f == FileFormat::MsDosExecutable || f == FileFormat::PortableDocumentFormat
                || f == FileFormat::AdvancedSystemsFormat || f == FileFormat::Realmedia {
                f
            } else {
                from_generic(d, plain_text)
            },
        },
    }
}

/// Detects the format of the stream `d`, with the text path of the generic
/// classifier on or off.
pub fn detect(d: &[u8], plain_text: bool) -> (r: FileFormat)
    ensures
        r == detect_of(d@, plain_text),
{
    if d.len() == 0 {
        return FileFormat::Empty;
    }
    let n = if d.len() <= PREFIX_LEN { d.len() } else { PREFIX_LEN };
    let prefix = &d[0..n];
    assert(prefix@ =~= prefix_of(d@));
    match from_signature(prefix) {
        None => {
            from_generic(d, plain_text)
        },
        Some(f) => {
            let o = refine(f, d);
            resolve(Some(f), o, d, plain_text)
        },
    }
}

impl<'a> From<&'a [u8]> for FileFormat {
    /// Determines the format of a whole stream held in memory, as
    /// [`FileFormat::from_bytes`] does.
    fn from(bytes: &'a [u8]) -> (r: FileFormat) {
        detect(bytes, true)
    }
}

impl<'a> vstd::std_specs::convert::FromSpecImpl<&'a [u8]> for FileFormat {
    open spec fn obeys_from_spec() -> bool {
        true
    }

    open spec fn from_spec(bytes: &'a [u8]) -> FileFormat {
        detect_of(bytes@, true)
    }
}

impl FileFormat {
    /// Determines the format of a whole stream held in memory, with every
    /// container reader and the text path enabled.
    pub fn from_bytes(bytes: &[u8]) -> (r: FileFormat)
        ensures
            r == detect_of(bytes@, true),
    {
        detect(bytes, true)
    }

    /// Determines the coarse format of a stream prefix from the signature
    /// catalog alone.
    pub fn from_signature(prefix: &[u8]) -> (r: Option<FileFormat>)
        ensures
            r == signature_of(prefix@),
    {
        from_signature(prefix)
    }
}

/// Detection answers `Empty` exactly for a stream of no bytes: no signature,
/// reader or fallback of a non-empty stream names it.
pub proof fn empty_iff_no_bytes(d: Seq<u8>, plain_text: bool)
    ensures
        detect_of(d, plain_text) == FileFormat::Empty <==> d.len() == 0,
{
    zip_not_empty(d);
    cfb_not_empty(d);
    asf_not_empty(d);
    rm_not_empty(d);
}

/// Detection depends on the stream's content alone: run twice on the same
/// bytes it gives the same format.
pub proof fn detection_is_repeatable(d1: Seq<u8>, d2: Seq<u8>, plain_text: bool)
    requires
        d1 == d2,
    ensures
        detect_of(d1, plain_text) == detect_of(d2, plain_text),
{
}

/// A non-empty stream of zero bytes that no signature matches is arbitrary
/// binary data, with or without the text path.
pub proof fn zero_bytes_are_binary(d: Seq<u8>, plain_text: bool)
    requires
        d.len() > 0,
        forall|i: int| 0 <= i < d.len() ==> d[i] == 0,
        signature_of(prefix_of(d)) is None,
    ensures
        detect_of(d, plain_text) == FileFormat::ArbitraryBinaryData,
{
    assert(char_width(d, 0) == 0);
}

proof fn ascii_is_text_from(d: Seq<u8>, i: int)
    requires
        0 <= i,
        forall|j: int| 0 <= j < d.len() ==> is_text_ascii(#[trigger] d[j]),
    ensures
        text_from(d, i),
    decreases d.len() - i,
{
    if i < d.len() {
        assert(is_text_ascii(d[i]));
        assert(char_width(d, i) == 1);
        ascii_is_text_from(d, i + 1);
    }
}

/// A non-empty stream of printable or white-space ASCII that no signature
/// matches is plain text where the text path is enabled, and arbitrary binary
/// data where it is not.
pub proof fn ascii_text_is_plain_text(d: Seq<u8>, plain_text: bool)
    requires
        d.len() > 0,
        forall|i: int| 0 <= i < d.len() ==> is_text_ascii(#[trigger] d[i]),
        signature_of(prefix_of(d)) is None,
    ensures
        plain_text ==> detect_of(d, plain_text) == FileFormat::PlainText,
        !plain_text ==> detect_of(d, plain_text) == FileFormat::ArbitraryBinaryData,
{
    ascii_is_text_from(d, 0);
}

/// A reader's answer always wins over the coarse container format; when the
/// reader of a container that is no answer on its own fails, the generic
/// classifier answers and the coarse format never does; when the reader of a
/// container that is an answer on its own fails, the coarse format stands.
pub proof fn refined_answer_wins(d: Seq<u8>, plain_text: bool)
    requires
        d.len() > 0,
        signature_of(prefix_of(d)) is Some,
    ensures
        ({
            let f = signature_of(prefix_of(d))->0;
            &&& refine_of(f, d) matches Some(g) ==> detect_of(d, plain_text) == g
            &&& refine_of(f, d) is None && drops_coarse(f) ==> detect_of(d, plain_text) == generic_of(d, plain_text)
                && detect_of(d, plain_text) != f
            &&& refine_of(f, d) is None && keeps_coarse(f) ==> detect_of(d, plain_text) == f
        }),
{
}

/// A Compound File Binary stream whose allocation table and directory chain
/// lie whole within the stream and whose root entry carries a known class
/// identifier is detected as the format that identifier names.
pub proof fn cfb_class_decides(d: Seq<u8>, plain_text: bool, g: FileFormat)
    requires
        signature_of(prefix_of(d)) == Some(FileFormat::CompoundFileBinary),
        fat_in_stream(d),
        dir_chain_whole(d),
        root_class_marker(d) == Some(g),
    ensures
        detect_of(d, plain_text) == g,
{
}

/// A Compound File Binary stream whose root directory entry or one of whose
/// allocation-table sectors lies past the end of the stream, or whose
/// directory chain is broken (a sector past the end, an unreadable table
/// entry, a cycle), is left to the generic classifier, whatever its class
/// identifier or stream names.
pub proof fn truncated_cfb_is_generic(d: Seq<u8>, plain_text: bool)
    requires
        signature_of(prefix_of(d)) == Some(FileFormat::CompoundFileBinary),
        !root_entry_readable(d) || !fat_in_stream(d) || !dir_chain_whole(d),
    ensures
        detect_of(d, plain_text) == generic_of(d, plain_text),
{
}

/// A ZIP signature with no end-of-central-directory record, or with a
/// central directory one of whose declared headers is not whole, is left to
/// the generic classifier, whatever its entries name.
pub proof fn zip_without_directory_is_generic(d: Seq<u8>, plain_text: bool)
    requires
        signature_of(prefix_of(d)) == Some(FileFormat::Zip),
        !has_eocd(d) || !directory_whole(d),
    ensures
        detect_of(d, plain_text) == generic_of(d, plain_text),
{
    scan_resolved_iff_whole(d, directory_start(d), directory_count(d), FileFormat::Zip, None);
}

/// An MS-DOS executable is never left to the generic classifier: the
/// executable-header reader's answer stands, the MS-DOS executable itself
/// where the extended header is unknown.
pub proof fn exe_is_exe_of(d: Seq<u8>, plain_text: bool)
    requires
        signature_of(prefix_of(d)) == Some(FileFormat::MsDosExecutable),
    ensures
        detect_of(d, plain_text) == exe_of(d),
{
}

/// A stream that starts with the PNG signature is PNG, whatever follows.
pub proof fn png_signature_decides(d: Seq<u8>, plain_text: bool)
    requires
        occurs_at(d, 0, seq![0x89u8, 0x50, 0x4E, 0x47, 0x0D, 0x0A, 0x1A, 0x0A]),
    ensures
        detect_of(d, plain_text) == FileFormat::PortableNetworkGraphics,
{
    let p = prefix_of(d);
    assert(occurs_at(p, 0, seq![0x89u8, 0x50, 0x4E, 0x47, 0x0D, 0x0A, 0x1A, 0x0A]));
}

/// A ZIP stream whose central directory is whole and holds an entry whose
/// name starts with `word/` (such as `word/document.xml`) is an Office Open
/// XML document, not a plain archive, provided no entry before it in the
/// directory decides the format.
pub proof fn word_part_makes_office_document(d: Seq<u8>, plain_text: bool, k: nat)
    requires
        signature_of(prefix_of(d)) == Some(FileFormat::Zip),
        has_eocd(d),
        directory_whole(d),
        k < directory_count(d),
        header_at(d, directory_start(d), k) matches Some(q) && header_whole(d, q) && occurs_at(
            header_name(d, q),
            0,
            seq![0x77u8, 0x6F, 0x72, 0x64, 0x2F],
        ),
    ensures
        detect_of(d, plain_text) == FileFormat::OfficeOpenXmlDocument,
{
    word_part_decides_scan(d, directory_start(d), directory_count(d), FileFormat::Zip, k);
    scan_resolved_iff_whole(d, directory_start(d), directory_count(d), FileFormat::Zip, None);
}

} // verus!
