use file_format::{detect, FileFormat, Kind};

fn le16(v: u16) -> Vec<u8> {
    v.to_le_bytes().to_vec()
}

fn le32(v: u32) -> Vec<u8> {
    v.to_le_bytes().to_vec()
}

fn be32(v: u32) -> Vec<u8> {
    v.to_be_bytes().to_vec()
}

/// A stored ZIP archive of the given entries, with its central directory.
fn zip_of(entries: &[(&str, &[u8])]) -> Vec<u8> {
    let mut out = Vec::new();
    let mut central = Vec::new();
    for (name, content) in entries {
        let offset = out.len() as u32;
        out.extend_from_slice(b"PK\x03\x04");
        out.extend_from_slice(&[20, 0, 0, 0, 0, 0, 0, 0, 0, 0]);
        out.extend(le32(0));
        out.extend(le32(content.len() as u32));
        out.extend(le32(content.len() as u32));
        out.extend(le16(name.len() as u16));
        out.extend(le16(0));
        out.extend_from_slice(name.as_bytes());
        out.extend_from_slice(content);
        central.extend_from_slice(b"PK\x01\x02");
        central.extend_from_slice(&[20, 0, 20, 0, 0, 0, 0, 0, 0, 0, 0, 0]);
        central.extend(le32(0));
        central.extend(le32(content.len() as u32));
        central.extend(le32(content.len() as u32));
        central.extend(le16(name.len() as u16));
        central.extend(le16(0));
        central.extend(le16(0));
        central.extend(le16(0));
        central.extend(le16(0));
        central.extend(le32(0));
        central.extend(le32(offset));
        central.extend_from_slice(name.as_bytes());
    }
    let cd_offset = out.len() as u32;
    let cd_size = central.len() as u32;
    out.extend(central);
    out.extend_from_slice(b"PK\x05\x06");
    out.extend(le16(0));
    out.extend(le16(0));
    out.extend(le16(entries.len() as u16));
    out.extend(le16(entries.len() as u16));
    out.extend(le32(cd_size));
    out.extend(le32(cd_offset));
    out.extend(le16(0));
    out
}

fn utf16_name(name: &str) -> Vec<u8> {
    let mut v = Vec::new();
    for c in name.bytes() {
        v.push(c);
        v.push(0);
    }
    v
}

/// A Compound File Binary file of 512-byte sectors: sector 0 holds the
/// allocation table, sector 1 the directory, with a root entry of the given
/// class identifier and one stream of the given name.
fn cfb_of(class: [u8; 16], stream: &str) -> Vec<u8> {
    let mut d = vec![0u8; 1536];
    d[..8].copy_from_slice(&[0xD0, 0xCF, 0x11, 0xE0, 0xA1, 0xB1, 0x1A, 0xE1]);
    d[0x1A..0x1C].copy_from_slice(&le16(3));
    d[0x1C..0x1E].copy_from_slice(&le16(0xFFFE));
    d[0x1E..0x20].copy_from_slice(&le16(9));
    d[0x20..0x22].copy_from_slice(&le16(6));
    d[0x2C..0x30].copy_from_slice(&le32(1));
    d[0x30..0x34].copy_from_slice(&le32(1));
    d[0x3C..0x40].copy_from_slice(&le32(0xFFFFFFFE));
    d[0x44..0x48].copy_from_slice(&le32(0xFFFFFFFE));
    for i in 0..109 {
        let at = 0x4C + 4 * i;
        d[at..at + 4].copy_from_slice(&le32(if i == 0 { 0 } else { 0xFFFFFFFF }));
    }
    for i in 0..128 {
        let at = 512 + 4 * i;
        let v = match i {
            0 => 0xFFFFFFFD,
            1 => 0xFFFFFFFE,
            _ => 0xFFFFFFFF,
        };
        d[at..at + 4].copy_from_slice(&le32(v));
    }
    let root = utf16_name("Root Entry");
    d[1024..1024 + root.len()].copy_from_slice(&root);
    d[1024 + 0x40..1024 + 0x42].copy_from_slice(&le16(root.len() as u16 + 2));
    d[1024 + 0x42] = 5;
    d[1024 + 0x50..1024 + 0x60].copy_from_slice(&class);
    let name = utf16_name(stream);
    d[1152..1152 + name.len()].copy_from_slice(&name);
    d[1152 + 0x40..1152 + 0x42].copy_from_slice(&le16(name.len() as u16 + 2));
    d[1152 + 0x42] = 2;
    d
}

const WORD_CLASS: [u8; 16] = [
    0x06, 0x09, 0x02, 0x00, 0x00, 0x00, 0x00, 0x00, 0xC0, 0x00, 0x00, 0x00, 0x00, 0x00, 0x00, 0x46,
];

/// An MS-DOS stub whose extended header holds `sig` and, for a portable
/// executable, the given characteristics.
fn exe_of(sig: &[u8], characteristics: u16) -> Vec<u8> {
    let mut d = vec![0u8; 0x40];
    d[0] = b'M';
    d[1] = b'Z';
    d[0x3C..0x40].copy_from_slice(&le32(0x40));
    d.extend_from_slice(sig);
    d.resize(0x40 + 22, 0);
    d.extend(le16(characteristics));
    d
}

fn mp4_box(kind: &[u8], payload: &[u8]) -> Vec<u8> {
    let mut v = be32(8 + payload.len() as u32);
    v.extend_from_slice(kind);
    v.extend_from_slice(payload);
    v
}

fn mp4_with_handler(brand: &[u8], handler: &[u8]) -> Vec<u8> {
    let mut ftyp = brand.to_vec();
    ftyp.extend(be32(0));
    let mut hdlr = vec![0u8; 8];
    hdlr.extend_from_slice(handler);
    hdlr.extend(vec![0u8; 13]);
    let mdia = mp4_box(b"mdia", &mp4_box(b"hdlr", &hdlr));
    let trak = mp4_box(b"trak", &mdia);
    let moov = mp4_box(b"moov", &trak);
    let mut d = mp4_box(b"ftyp", &ftyp);
    d.extend(moov);
    d
}

fn ebml_element(id: &[u8], payload: &[u8]) -> Vec<u8> {
    let mut v = id.to_vec();
    v.push(0x80 | payload.len() as u8);
    v.extend_from_slice(payload);
    v
}

fn matroska_with_track(track_type: u8) -> Vec<u8> {
    let doc_type = ebml_element(&[0x42, 0x82], b"matroska");
    let mut d = ebml_element(&[0x1A, 0x45, 0xDF, 0xA3], &doc_type);
    let entry = ebml_element(&[0xAE], &ebml_element(&[0x83], &[track_type]));
    let tracks = ebml_element(&[0x16, 0x54, 0xAE, 0x6B], &entry);
    d.extend(ebml_element(&[0x18, 0x53, 0x80, 0x67], &tracks));
    d
}

const ASF_HEADER: [u8; 16] = [
    0x30, 0x26, 0xB2, 0x75, 0x8E, 0x66, 0xCF, 0x11, 0xA6, 0xD9, 0x00, 0xAA, 0x00, 0x62, 0xCE, 0x6C,
];
const ASF_STREAM_PROPERTIES: [u8; 16] = [
    0xB7, 0xDC, 0x07, 0x91, 0xA9, 0xB7, 0xCF, 0x11, 0x8E, 0xE6, 0x00, 0xC0, 0x0C, 0x20, 0x53, 0x65,
];
const ASF_VIDEO: [u8; 16] = [
    0xC0, 0xEF, 0x19, 0xBC, 0x4D, 0x5B, 0xCF, 0x11, 0xA8, 0xFD, 0x00, 0x80, 0x5F, 0x5C, 0x44, 0x2B,
];
const ASF_AUDIO: [u8; 16] = [
    0x40, 0x9E, 0x69, 0xF8, 0x4D, 0x5B, 0xCF, 0x11, 0xA8, 0xFD, 0x00, 0x80, 0x5F, 0x5C, 0x44, 0x2B,
];

fn asf_with_stream(stream_type: &[u8; 16]) -> Vec<u8> {
    let mut d = ASF_HEADER.to_vec();
    d.extend(le32(70));
    d.extend(le32(0));
    d.extend(le32(1));
    d.extend_from_slice(&[1, 2]);
    d.extend_from_slice(&ASF_STREAM_PROPERTIES);
    d.extend(le32(40));
    d.extend(le32(0));
    d.extend_from_slice(stream_type);
    d
}

fn rm_with_mime(mime: &str) -> Vec<u8> {
    let mut d = b".RMF".to_vec();
    d.extend(be32(18));
    d.extend_from_slice(&[0, 0, 0, 0, 0, 0, 0, 0, 0, 2]);
    let size = 40 + 1 + 1 + mime.len() + 4;
    d.extend_from_slice(b"MDPR");
    d.extend(be32(size as u32));
    d.extend(vec![0u8; 32]);
    d.push(0);
    d.push(mime.len() as u8);
    d.extend_from_slice(mime.as_bytes());
    d.extend(be32(0));
    d
}

#[test]
fn empty_input_is_empty() {
    assert_eq!(FileFormat::from_bytes(&[]), FileFormat::Empty);
    assert_eq!(detect(&[], false), FileFormat::Empty);
}

#[test]
fn zeroed_buffer_is_binary() {
    assert_eq!(FileFormat::from_bytes(&[0; 1000]), FileFormat::ArbitraryBinaryData);
    assert_eq!(FileFormat::from_bytes(&[0]), FileFormat::ArbitraryBinaryData);
    assert_eq!(detect(&[0; 40000], false), FileFormat::ArbitraryBinaryData);
}

#[test]
fn ascii_text_depends_on_text_path() {
    let text = b"Hello, world!\r\n\tThe quick brown fox.\n";
    assert_eq!(FileFormat::from_bytes(text), FileFormat::PlainText);
    assert_eq!(detect(text, true), FileFormat::PlainText);
    assert_eq!(detect(text, false), FileFormat::ArbitraryBinaryData);
}

#[test]
fn utf8_text_and_byte_order_mark() {
    assert_eq!(FileFormat::from_bytes("gr\u{fc}\u{df} dich \u{1F600}\n".as_bytes()), FileFormat::PlainText);
    assert_eq!(FileFormat::from_bytes(b"\xEF\xBB\xBFtext"), FileFormat::PlainText);
    assert_eq!(FileFormat::from_bytes(b"bad \xC3 byte"), FileFormat::ArbitraryBinaryData);
    assert_eq!(FileFormat::from_bytes(b"surrogate \xED\xA0\x80"), FileFormat::ArbitraryBinaryData);
    assert_eq!(FileFormat::from_bytes(b"bell \x07"), FileFormat::ArbitraryBinaryData);
}

#[test]
fn detection_is_repeatable() {
    let inputs = [
        zip_of(&[("word/document.xml", b"<w/>")]),
        cfb_of(WORD_CLASS, "WordDocument"),
        b"plain words".to_vec(),
        vec![0xFF, 0xD8, 0xFF, 0xE0],
    ];
    for input in inputs.iter() {
        assert_eq!(FileFormat::from_bytes(input), FileFormat::from_bytes(input));
    }
}

#[test]
fn png_signature_wins_whatever_follows() {
    let mut d = vec![0x89, 0x50, 0x4E, 0x47, 0x0D, 0x0A, 0x1A, 0x0A];
    assert_eq!(FileFormat::from_bytes(&d), FileFormat::PortableNetworkGraphics);
    d.extend_from_slice(b"PK\x03\x04 anything at all");
    assert_eq!(FileFormat::from_bytes(&d), FileFormat::PortableNetworkGraphics);
}

#[test]
fn jpeg_from_three_bytes() {
    assert_eq!(FileFormat::from_bytes(&[0xFF, 0xD8, 0xFF]), FileFormat::JointPhotographicExpertsGroup);
}

#[test]
fn signatures_with_gaps_and_offsets() {
    assert_eq!(FileFormat::from_bytes(b"RIFF\x10\x00\x00\x00WAVEfmt "), FileFormat::WaveformAudio);
    assert_eq!(FileFormat::from_bytes(b"RIFF\x10\x00\x00\x00AVI LIST"), FileFormat::AudioVideoInterleave);
    assert_eq!(FileFormat::from_bytes(b"RIFF\x10\x00\x00\x00ACONanih"), FileFormat::Ani);
    let mut tar = vec![0u8; 512];
    tar[257..262].copy_from_slice(b"ustar");
    assert_eq!(FileFormat::from_bytes(&tar), FileFormat::TapeArchive);
    let mut iso = vec![0u8; 32774];
    iso[32769..32774].copy_from_slice(b"CD001");
    assert_eq!(FileFormat::from_bytes(&iso), FileFormat::Iso9660);
    let mut late_iso = vec![0u8; 36870];
    late_iso[36865..36870].copy_from_slice(b"CD001");
    assert_eq!(FileFormat::from_bytes(&late_iso), FileFormat::Iso9660);
}

#[test]
fn more_specific_signature_comes_first() {
    assert_eq!(FileFormat::from_bytes(b"!<arch>\ndebian-binary   "), FileFormat::DebianBinaryPackage);
    assert_eq!(FileFormat::from_bytes(b"!<arch>\nlibfoo.o/       "), FileFormat::UnixArchiver);
}

#[test]
fn pattern_cut_short_does_not_match() {
    assert_eq!(FileFormat::from_signature(&[0x89, 0x50, 0x4E]), None);
    assert_eq!(FileFormat::from_signature(b"RIFF\x10\x00\x00\x00WAV"), None);
    assert_eq!(FileFormat::from_signature(&[0x1F, 0x8B]), Some(FileFormat::Gzip));
}

#[test]
fn various_signatures() {
    assert_eq!(FileFormat::from_bytes(b"GIF89a\x01\x00"), FileFormat::GraphicsInterchangeFormat);
    assert_eq!(FileFormat::from_bytes(&[0x1F, 0x8B, 0x08, 0x00]), FileFormat::Gzip);
    assert_eq!(FileFormat::from_bytes(b"BZh91AY&SY"), FileFormat::Bzip2);
    assert_eq!(FileFormat::from_bytes(&[0xFD, 0x37, 0x7A, 0x58, 0x5A, 0x00, 0x00]), FileFormat::Xz);
    assert_eq!(FileFormat::from_bytes(&[0x37, 0x7A, 0xBC, 0xAF, 0x27, 0x1C, 0x00]), FileFormat::SevenZip);
    assert_eq!(FileFormat::from_bytes(&[0x28, 0xB5, 0x2F, 0xFD, 0x00]), FileFormat::Zstandard);
    assert_eq!(FileFormat::from_bytes(b"\x7FELF\x02\x01\x01"), FileFormat::ExecutableAndLinkableFormat);
    assert_eq!(FileFormat::from_bytes(b"SQLite format 3\x00rest"), FileFormat::Sqlite3);
    assert_eq!(FileFormat::from_bytes(b"\x00asm\x01\x00\x00\x00"), FileFormat::WebAssemblyBinary);
    assert_eq!(FileFormat::from_bytes(b"Rar!\x1A\x07\x01\x00"), FileFormat::RoshalArchive);
    assert_eq!(FileFormat::from_bytes(b"xx-lh5-yyyy"), FileFormat::Lha);
    assert_eq!(FileFormat::from_bytes(b"fLaC\x00\x00\x00\x22"), FileFormat::FreeLosslessAudioCodec);
}

#[test]
fn zip_entry_name_selects_office_document() {
    let d = zip_of(&[("[Content_Types].xml", b"<Types/>"), ("word/document.xml", b"<w:document/>")]);
    assert_eq!(FileFormat::from_bytes(&d), FileFormat::OfficeOpenXmlDocument);
}

#[test]
fn zip_entry_names_select_package_formats() {
    assert_eq!(FileFormat::from_bytes(&zip_of(&[("xl/workbook.xml", b"x")])), FileFormat::OfficeOpenXmlSpreadsheet);
    assert_eq!(FileFormat::from_bytes(&zip_of(&[("ppt/presentation.xml", b"x")])), FileFormat::OfficeOpenXmlPresentation);
    assert_eq!(FileFormat::from_bytes(&zip_of(&[("visio/document.xml", b"x")])), FileFormat::OfficeOpenXmlDrawing);
    assert_eq!(
        FileFormat::from_bytes(&zip_of(&[("META-INF/MANIFEST.MF", b"x"), ("AndroidManifest.xml", b"x")])),
        FileFormat::AndroidPackage
    );
    assert_eq!(FileFormat::from_bytes(&zip_of(&[("WEB-INF/web.xml", b"x")])), FileFormat::WebApplicationArchive);
    assert_eq!(FileFormat::from_bytes(&zip_of(&[("install.rdf", b"x")])), FileFormat::XpInstall);
    assert_eq!(
        FileFormat::from_bytes(&zip_of(&[("3D/3dmodel.model", b"x")])),
        FileFormat::ThreeDimensionalManufacturingFormat
    );
}

#[test]
fn zip_java_manifest_alone_is_java_archive() {
    let d = zip_of(&[("META-INF/MANIFEST.MF", b"Manifest-Version: 1.0"), ("a/B.class", b"\xCA\xFE\xBA\xBE")]);
    assert_eq!(FileFormat::from_bytes(&d), FileFormat::JavaArchive);
}

#[test]
fn zip_mimetype_content_selects_format() {
    let epub = zip_of(&[("mimetype", b"application/epub+zip"), ("OEBPS/content.opf", b"x")]);
    assert_eq!(FileFormat::from_bytes(&epub), FileFormat::ElectronicPublication);
    let odt = zip_of(&[("mimetype", b"application/vnd.oasis.opendocument.text")]);
    assert_eq!(FileFormat::from_bytes(&odt), FileFormat::OpenDocumentText);
    let ods = zip_of(&[("mimetype", b"application/vnd.oasis.opendocument.spreadsheet")]);
    assert_eq!(FileFormat::from_bytes(&ods), FileFormat::OpenDocumentSpreadsheet);
}

#[test]
fn zip_without_marker_is_zip() {
    let d = zip_of(&[("readme.txt", b"hello"), ("src/main.c", b"int main;")]);
    assert_eq!(FileFormat::from_bytes(&d), FileFormat::Zip);
}

#[test]
fn zip_without_central_directory_falls_back() {
    let mut d = zip_of(&[("word/document.xml", b"x")]);
    let n = d.len();
    d.truncate(n - 22);
    assert_eq!(FileFormat::from_bytes(&d), FileFormat::ArbitraryBinaryData);
    assert_eq!(FileFormat::from_bytes(b"PK\x03\x04 and no directory"), FileFormat::ArbitraryBinaryData);
}

#[test]
fn zip_marker_names() {
    assert_eq!(file_format::entry_marker_of(b"word/document.xml"), Some(FileFormat::OfficeOpenXmlDocument));
    assert_eq!(file_format::entry_marker_of(b"AndroidManifest.xml.bak"), None);
    assert_eq!(file_format::entry_marker_of(b"mimetype"), None);
    assert_eq!(
        file_format::mimetype_marker_of(b"application/vnd.oasis.opendocument.graphics"),
        Some(FileFormat::OpenDocumentGraphics)
    );
    assert_eq!(file_format::mimetype_marker_of(b"text/plain"), None);
}

#[test]
fn cfb_class_identifier_selects_word() {
    let d = cfb_of(WORD_CLASS, "Data");
    assert_eq!(FileFormat::from_bytes(&d), FileFormat::MicrosoftWordDocument);
}

#[test]
fn cfb_stream_name_selects_format() {
    assert_eq!(FileFormat::from_bytes(&cfb_of([0; 16], "Workbook")), FileFormat::MicrosoftExcelSpreadsheet);
    assert_eq!(FileFormat::from_bytes(&cfb_of([0; 16], "PowerPoint Document")), FileFormat::MicrosoftPowerPointPresentation);
    assert_eq!(FileFormat::from_bytes(&cfb_of([0; 16], "WordDocument")), FileFormat::MicrosoftWordDocument);
}

#[test]
fn cfb_without_marker_is_container() {
    assert_eq!(FileFormat::from_bytes(&cfb_of([0; 16], "Contents")), FileFormat::CompoundFileBinary);
}

#[test]
fn cfb_allocation_table_past_end_falls_back() {
    let mut d = cfb_of([0; 16], "Contents");
    d[0x4C..0x50].copy_from_slice(&le32(50));
    assert_eq!(FileFormat::from_bytes(&d), FileFormat::ArbitraryBinaryData);
}

#[test]
fn cfb_known_class_with_allocation_table_past_end_falls_back() {
    let mut d = cfb_of(WORD_CLASS, "WordDocument");
    d[0x4C..0x50].copy_from_slice(&le32(50));
    assert_eq!(FileFormat::from_bytes(&d), FileFormat::ArbitraryBinaryData);
    let mut none_declared = cfb_of(WORD_CLASS, "WordDocument");
    none_declared[0x2C..0x30].copy_from_slice(&le32(0));
    assert_eq!(FileFormat::from_bytes(&none_declared), FileFormat::ArbitraryBinaryData);
}

#[test]
fn zip_office_marker_after_plain_entries() {
    let d = zip_of(&[
        ("[Content_Types].xml", b"<Types/>"),
        ("_rels/.rels", b"<Relationships/>"),
        ("docProps/core.xml", b"<cp/>"),
        ("word/document.xml", b"<w:document/>"),
    ]);
    assert_eq!(FileFormat::from_bytes(&d), FileFormat::OfficeOpenXmlDocument);
}

#[test]
fn cfb_directory_past_end_falls_back() {
    let mut d = cfb_of(WORD_CLASS, "WordDocument");
    d[0x30..0x34].copy_from_slice(&le32(100));
    assert_eq!(FileFormat::from_bytes(&d), FileFormat::ArbitraryBinaryData);
    let header_only = d[..512].to_vec();
    assert_eq!(FileFormat::from_bytes(&header_only), FileFormat::ArbitraryBinaryData);
}

#[test]
fn cfb_cyclic_chain_terminates() {
    let mut d = cfb_of([0; 16], "Contents");
    d[512 + 4..512 + 8].copy_from_slice(&le32(1));
    assert_eq!(FileFormat::from_bytes(&d), FileFormat::ArbitraryBinaryData);
}

#[test]
fn exe_extended_header_selects_format() {
    assert_eq!(FileFormat::from_bytes(&exe_of(b"PE\x00\x00", 0x0102)), FileFormat::PortableExecutable);
    assert_eq!(FileFormat::from_bytes(&exe_of(b"PE\x00\x00", 0x2102)), FileFormat::DynamicLinkLibrary);
    assert_eq!(FileFormat::from_bytes(&exe_of(b"NE", 0)), FileFormat::NewExecutable);
    assert_eq!(FileFormat::from_bytes(&exe_of(b"LE", 0)), FileFormat::LinearExecutable);
    assert_eq!(FileFormat::from_bytes(&exe_of(b"PE\x01\x02", 0x0102)), FileFormat::PortableExecutable);
    assert_eq!(FileFormat::from_bytes(&exe_of(b"PEzz", 0x2000)), FileFormat::DynamicLinkLibrary);
}

#[test]
fn exe_unknown_header_keeps_ms_dos() {
    assert_eq!(FileFormat::from_bytes(&exe_of(b"XY", 0)), FileFormat::MsDosExecutable);
    assert_eq!(FileFormat::from_bytes(&exe_of(b"LX", 0)), FileFormat::MsDosExecutable);
    assert_eq!(FileFormat::from_bytes(b"MZ"), FileFormat::MsDosExecutable);
    let mut d = exe_of(b"PE\x00\x00", 0);
    d[0x3C..0x40].copy_from_slice(&le32(0xFFFF_FF00));
    assert_eq!(FileFormat::from_bytes(&d), FileFormat::MsDosExecutable);
}

#[test]
fn pdf_creator_marker_selects_illustrator() {
    assert_eq!(
        FileFormat::from_bytes(b"%PDF-1.5\n<xmp:CreatorTool>Adobe Illustrator 27.0</xmp:CreatorTool>"),
        FileFormat::AdobeIllustratorArtwork
    );
    assert_eq!(FileFormat::from_bytes(b"%PDF-1.7\n1 0 obj\n<<>>\nendobj\n"), FileFormat::PortableDocumentFormat);
}

#[test]
fn mp4_brand_and_handler_select_format() {
    assert_eq!(FileFormat::from_bytes(&mp4_with_handler(b"M4A ", b"soun")), FileFormat::Mpeg4Part14Audio);
    assert_eq!(FileFormat::from_bytes(&mp4_with_handler(b"isom", b"vide")), FileFormat::Mpeg4Part14Video);
    assert_eq!(FileFormat::from_bytes(&mp4_with_handler(b"isom", b"soun")), FileFormat::Mpeg4Part14Audio);
    assert_eq!(FileFormat::from_bytes(&mp4_with_handler(b"isom", b"sbtl")), FileFormat::Mpeg4Part14Subtitles);
    assert_eq!(FileFormat::from_bytes(&mp4_with_handler(b"isom", b"meta")), FileFormat::Mpeg4Part14);
}

#[test]
fn mp4_zero_size_box_falls_back() {
    let d = b"\x00\x00\x00\x00ftypisom\x00\x00\x00\x00";
    assert_eq!(FileFormat::from_bytes(d), FileFormat::ArbitraryBinaryData);
}

#[test]
fn mp4_absurd_size_is_bounded() {
    let mut d = mp4_with_handler(b"isom", b"vide");
    d[16..20].copy_from_slice(&be32(0xFFFF_FFF0));
    assert_eq!(FileFormat::from_bytes(&d), FileFormat::ArbitraryBinaryData);
}

#[test]
fn mp4_later_zero_size_box_falls_back() {
    let mut d = mp4_with_handler(b"M4A ", b"soun");
    d[16..20].copy_from_slice(&be32(0));
    assert_eq!(FileFormat::from_bytes(&d), FileFormat::ArbitraryBinaryData);
    let mut nested = mp4_with_handler(b"isom", b"vide");
    nested[32..36].copy_from_slice(&be32(0));
    assert_eq!(FileFormat::from_bytes(&nested), FileFormat::ArbitraryBinaryData);
}

#[test]
fn ebml_doc_type_and_tracks_select_format() {
    let doc_type = ebml_element(&[0x42, 0x82], b"webm");
    let webm = ebml_element(&[0x1A, 0x45, 0xDF, 0xA3], &doc_type);
    assert_eq!(FileFormat::from_bytes(&webm), FileFormat::Webm);
    assert_eq!(FileFormat::from_bytes(&matroska_with_track(1)), FileFormat::MatroskaVideo);
    assert_eq!(FileFormat::from_bytes(&matroska_with_track(2)), FileFormat::MatroskaAudio);
    assert_eq!(FileFormat::from_bytes(&matroska_with_track(0x11)), FileFormat::MatroskaSubtitles);
}

#[test]
fn ebml_without_tracks_falls_back() {
    let doc_type = ebml_element(&[0x42, 0x82], b"matroska");
    let d = ebml_element(&[0x1A, 0x45, 0xDF, 0xA3], &doc_type);
    assert_eq!(FileFormat::from_bytes(&d), FileFormat::ArbitraryBinaryData);
}

#[test]
fn asf_stream_type_selects_format() {
    assert_eq!(FileFormat::from_bytes(&asf_with_stream(&ASF_VIDEO)), FileFormat::WindowsMediaVideo);
    assert_eq!(FileFormat::from_bytes(&asf_with_stream(&ASF_AUDIO)), FileFormat::WindowsMediaAudio);
    assert_eq!(FileFormat::from_bytes(&asf_with_stream(&[0; 16])), FileFormat::AdvancedSystemsFormat);
}

#[test]
fn rm_mime_type_selects_format() {
    assert_eq!(FileFormat::from_bytes(&rm_with_mime("video/x-pn-realvideo")), FileFormat::Realvideo);
    assert_eq!(FileFormat::from_bytes(&rm_with_mime("audio/x-pn-realaudio")), FileFormat::Realaudio);
    assert_eq!(FileFormat::from_bytes(&rm_with_mime("logical-fileinfo")), FileFormat::Realmedia);
}

#[test]
fn default_is_arbitrary_binary_data() {
    assert_eq!(FileFormat::default(), FileFormat::ArbitraryBinaryData);
}

#[test]
fn readers_called_directly() {
    assert_eq!(file_format::from_exe(b"MZ"), FileFormat::MsDosExecutable);
    assert_eq!(file_format::from_zip(b"no archive here"), None);
    assert_eq!(file_format::from_cfb(&[0; 100]), None);
    assert_eq!(file_format::from_mp4(&mp4_with_handler(b"M4V ", b"soun")), Some(FileFormat::Mpeg4Part14Video));
    assert_eq!(file_format::from_ebml(&matroska_with_track(7)), None);
    assert_eq!(file_format::from_asf(&ASF_HEADER), None);
    assert_eq!(file_format::from_rm(b".RMF"), None);
    assert_eq!(file_format::from_pdf(b"%PDF-"), FileFormat::PortableDocumentFormat);
}

#[test]
fn resolve_keeps_or_drops_coarse_format() {
    let text = b"words";
    assert_eq!(file_format::resolve(Some(FileFormat::Zip), None, text, true), FileFormat::PlainText);
    assert_eq!(file_format::resolve(Some(FileFormat::Zip), None, text, false), FileFormat::ArbitraryBinaryData);
    assert_eq!(
        file_format::resolve(Some(FileFormat::MsDosExecutable), None, text, true),
        FileFormat::MsDosExecutable
    );
    assert_eq!(
        file_format::resolve(Some(FileFormat::Zip), Some(FileFormat::JavaArchive), text, true),
        FileFormat::JavaArchive
    );
    assert_eq!(file_format::resolve(None, None, &[0, 1], true), FileFormat::ArbitraryBinaryData);
}

#[test]
fn refine_passes_through_plain_formats() {
    assert_eq!(file_format::refine(FileFormat::Gzip, &[0x1F, 0x8B]), Some(FileFormat::Gzip));
    assert_eq!(file_format::refine(FileFormat::Zip, b"PK\x03\x04"), None);
}

#[test]
fn plain_text_scan() {
    assert!(file_format::is_plain_text(b""));
    assert!(file_format::is_plain_text("caf\u{e9}".as_bytes()));
    assert!(!file_format::is_plain_text(b"\xF5\x80\x80\x80"));
    assert!(!file_format::is_plain_text(b"\xE0\x80\x80"));
    assert_eq!(file_format::from_generic(b"abc", true), FileFormat::PlainText);
    assert_eq!(file_format::from_generic(b"abc", false), FileFormat::ArbitraryBinaryData);
}

#[test]
fn kinds_of_formats() {
    assert_eq!(FileFormat::PortableNetworkGraphics.kind(), Kind::Image);
    assert_eq!(FileFormat::OfficeOpenXmlDocument.kind(), Kind::Document);
    assert_eq!(FileFormat::Zip.kind(), Kind::Archive);
    assert_eq!(FileFormat::MatroskaAudio.kind(), Kind::Audio);
    assert_eq!(FileFormat::PlainText.kind(), Kind::Text);
    assert_eq!(FileFormat::from_bytes(&[0xFF, 0xD8, 0xFF]).kind(), Kind::Image);
}

#[test]
fn rom_and_misc_signatures() {
    let mut gb = vec![0u8; 0x150];
    gb[0x104..0x10C].copy_from_slice(&[0xCE, 0xED, 0x66, 0x66, 0xCC, 0x0D, 0x00, 0x0B]);
    assert_eq!(FileFormat::from_bytes(&gb), FileFormat::GameBoyRom);
    gb[0x143] = 0xC0;
    assert_eq!(FileFormat::from_bytes(&gb), FileFormat::GameBoyColorRom);
    assert_eq!(FileFormat::from_bytes(b"NES\x1A\x02\x01"), FileFormat::NintendoEntertainmentSystemRom);
    assert_eq!(FileFormat::from_bytes(&[0x40, 0x12, 0x37, 0x80, 0x00]), FileFormat::Nintendo64Rom);
    assert_eq!(FileFormat::from_bytes(b"CWS\x0A\x00\x00"), FileFormat::SmallWebFormat);
    assert_eq!(FileFormat::from_bytes(b"II*\x00\x08\x00"), FileFormat::TagImageFileFormat);
    assert_eq!(FileFormat::from_bytes(b"RIFF\x10\x00\x00\x00WEBPVP8 "), FileFormat::WebP);
    assert_eq!(FileFormat::from_bytes(&[0x00, 0x00, 0x27, 0x0A, 0x00]), FileFormat::Shapefile);
}

#[test]
fn cfb_known_class_with_broken_chain_falls_back() {
    let mut d = cfb_of(WORD_CLASS, "WordDocument");
    d[516..520].copy_from_slice(&le32(50));
    assert_eq!(FileFormat::from_bytes(&d), FileFormat::ArbitraryBinaryData);
    let mut cyclic = cfb_of(WORD_CLASS, "WordDocument");
    cyclic[516..520].copy_from_slice(&le32(1));
    assert_eq!(FileFormat::from_bytes(&cyclic), FileFormat::ArbitraryBinaryData);
    let mut free_sector = cfb_of(WORD_CLASS, "WordDocument");
    free_sector[516..520].copy_from_slice(&le32(0xFFFF_FFFF));
    assert_eq!(FileFormat::from_bytes(&free_sector), FileFormat::ArbitraryBinaryData);
}

#[test]
fn zip_malformed_header_after_marker_falls_back() {
    let mut d = zip_of(&[("word/document.xml", b"<w/>"), ("notes.txt", b"x")]);
    let n = d.len();
    let cd = u32::from_le_bytes([d[n - 6], d[n - 5], d[n - 4], d[n - 3]]) as usize;
    let second = cd + 46 + "word/document.xml".len();
    assert_eq!(&d[second..second + 4], b"PK\x01\x02");
    d[second] = b'X';
    assert_eq!(FileFormat::from_bytes(&d), FileFormat::ArbitraryBinaryData);
}

#[test]
fn from_byte_slice_matches_from_bytes() {
    let png: &[u8] = &[0x89, 0x50, 0x4E, 0x47, 0x0D, 0x0A, 0x1A, 0x0A];
    assert_eq!(FileFormat::from(png), FileFormat::PortableNetworkGraphics);
    let empty: &[u8] = &[];
    assert_eq!(FileFormat::from(empty), FileFormat::Empty);
}
