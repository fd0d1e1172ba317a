//! The document-marker reader: PDF files written by Adobe Illustrator.

use vstd::prelude::*;
use crate::bytes::{find_before, occurs_before};
use crate::format::FileFormat;

verus! {

/// How far into a PDF stream the creator marker is looked for.
pub const PDF_WINDOW: usize = 0x100000;

/// The creator marker, `Adobe Illustrator`.
pub open spec fn illustrator_marker() -> Seq<u8> {
    seq![0x41u8, 0x64, 0x6F, 0x62, 0x65, 0x20, 0x49, 0x6C, 0x6C, 0x75, 0x73, 0x74, 0x72, 0x61, 0x74, 0x6F, 0x72]
}

/// The end of the window searched in `d`.
pub open spec fn pdf_window_end(d: Seq<u8>) -> int {
    if d.len() < PDF_WINDOW { d.len() as int } else { PDF_WINDOW as int }
}

/// Illustrator artwork where the marker stands in the window, PDF otherwise.
pub open spec fn pdf_of(d: Seq<u8>) -> FileFormat {
    if occurs_before(d, illustrator_marker(), pdf_window_end(d)) {
        FileFormat::AdobeIllustratorArtwork
    } else {
        FileFormat::PortableDocumentFormat
    }
}

/// Looks for the creator marker of Adobe Illustrator in a PDF stream.
pub fn from_pdf(d: &[u8]) -> (r: FileFormat)
    ensures
        r == pdf_of(d@),
{
    let end = if d.len() < PDF_WINDOW { d.len() } else { PDF_WINDOW };
    let marker = [0x41u8, 0x64, 0x6F, 0x62, 0x65, 0x20, 0x49, 0x6C, 0x6C, 0x75, 0x73, 0x74, 0x72, 0x61, 0x74, 0x6F, 0x72];
    assert(marker@ == illustrator_marker());
    if find_before(d, &marker, end) {
        FileFormat::AdobeIllustratorArtwork
    } else {
        FileFormat::PortableDocumentFormat
    }
}

} // verus!
