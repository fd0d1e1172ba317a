//! The signature catalog and the prefix matcher.
//!
//! Rules are tried in a fixed order and the first that matches wins; a rule
//! whose pattern is more specific than another sharing its prefix comes first.
//! A pattern with wildcard positions is written as the literal runs around them,
//! and a rule with several alternative patterns as their disjunction. A pattern
//! that would run past the end of the prefix does not match.

use vstd::prelude::*;
use crate::bytes::{has_at, occurs_at};
use crate::format::FileFormat;

verus! {

/// The coarse format named by the first rule of the catalog that `b` matches.
pub open spec fn signature_of(b: Seq<u8>) -> Option<FileFormat> {
    if occurs_at(b, 0, seq![0x89u8, 0x50, 0x4E, 0x47, 0x0D, 0x0A, 0x1A, 0x0A]) {
        Some(FileFormat::PortableNetworkGraphics)
    } else if occurs_at(b, 0, seq![0x21u8, 0x3C, 0x61, 0x72, 0x63, 0x68, 0x3E, 0x0A, 0x64, 0x65, 0x62, 0x69, 0x61, 0x6E, 0x2D, 0x62, 0x69, 0x6E, 0x61, 0x72, 0x79]) {
        Some(FileFormat::DebianBinaryPackage)
    } else if occurs_at(b, 0, seq![0x21u8, 0x3C, 0x61, 0x72, 0x63, 0x68, 0x3E, 0x0A]) {
        Some(FileFormat::UnixArchiver)
    } else if occurs_at(b, 0, seq![0x52u8, 0x49, 0x46, 0x46]) && occurs_at(b, 8, seq![0x57u8, 0x41, 0x56, 0x45]) {
        Some(FileFormat::WaveformAudio)
    } else if occurs_at(b, 0, seq![0x52u8, 0x49, 0x46, 0x46]) && occurs_at(b, 8, seq![0x41u8, 0x56, 0x49, 0x20]) {
        Some(FileFormat::AudioVideoInterleave)
    } else if occurs_at(b, 0, seq![0x52u8, 0x49, 0x46, 0x46]) && occurs_at(b, 8, seq![0x41u8, 0x43, 0x4F, 0x4E]) {
        Some(FileFormat::Ani)
    } else if occurs_at(b, 0, seq![0x50u8, 0x4B, 0x03, 0x04])
        || occurs_at(b, 0, seq![0x50u8, 0x4B, 0x05, 0x06])
        || occurs_at(b, 0, seq![0x50u8, 0x4B, 0x07, 0x08]) {
        Some(FileFormat::Zip)
    } else if occurs_at(b, 0, seq![0xD0u8, 0xCF, 0x11, 0xE0, 0xA1, 0xB1, 0x1A, 0xE1]) {
        Some(FileFormat::CompoundFileBinary)
    } else if occurs_at(b, 0, seq![0x1Au8, 0x45, 0xDF, 0xA3]) {
        Some(FileFormat::ExtensibleBinaryMetaLanguage)
    } else if occurs_at(b, 4, seq![0x66u8, 0x74, 0x79, 0x70]) {
        Some(FileFormat::Mpeg4Part14)
    } else if occurs_at(b, 0, seq![0x25u8, 0x50, 0x44, 0x46, 0x2D]) {
        Some(FileFormat::PortableDocumentFormat)
    } else if occurs_at(b, 0, seq![0x30u8, 0x26, 0xB2, 0x75, 0x8E, 0x66, 0xCF, 0x11, 0xA6, 0xD9, 0x00, 0xAA, 0x00, 0x62, 0xCE, 0x6C]) {
        Some(FileFormat::AdvancedSystemsFormat)
    } else if occurs_at(b, 0, seq![0x2Eu8, 0x52, 0x4D, 0x46]) {
        Some(FileFormat::Realmedia)
    } else if occurs_at(b, 0, seq![0x4Du8, 0x5A]) {
        Some(FileFormat::MsDosExecutable)
    } else if occurs_at(b, 0, seq![0xFFu8, 0xD8, 0xFF]) {
        Some(FileFormat::JointPhotographicExpertsGroup)
    } else if occurs_at(b, 0, seq![0x47u8, 0x49, 0x46, 0x38, 0x37, 0x61])
        || occurs_at(b, 0, seq![0x47u8, 0x49, 0x46, 0x38, 0x39, 0x61]) {
        Some(FileFormat::GraphicsInterchangeFormat)
    } else if occurs_at(b, 0, seq![0x1Fu8, 0x8B]) {
        Some(FileFormat::Gzip)
    } else if occurs_at(b, 0, seq![0x42u8, 0x5A, 0x68]) {
        Some(FileFormat::Bzip2)
    } else if occurs_at(b, 0, seq![0xFDu8, 0x37, 0x7A, 0x58, 0x5A, 0x00]) {
        Some(FileFormat::Xz)
    } else if occurs_at(b, 0, seq![0x37u8, 0x7A, 0xBC, 0xAF, 0x27, 0x1C]) {
        Some(FileFormat::SevenZip)
    } else if occurs_at(b, 0, seq![0x28u8, 0xB5, 0x2F, 0xFD]) {
        Some(FileFormat::Zstandard)
    } else if occurs_at(b, 0, seq![0x04u8, 0x22, 0x4D, 0x18]) {
        Some(FileFormat::Lz4)
    } else if occurs_at(b, 0, seq![0x4Cu8, 0x5A, 0x49, 0x50]) {
        Some(FileFormat::Lzip)
    } else if occurs_at(b, 0, seq![0x89u8, 0x4C, 0x5A, 0x4F, 0x00, 0x0D, 0x0A, 0x1A, 0x0A]) {
        Some(FileFormat::Lzop)
    } else if occurs_at(b, 0, seq![0x52u8, 0x61, 0x72, 0x21, 0x1A, 0x07]) {
        Some(FileFormat::RoshalArchive)
    } else if occurs_at(b, 257, seq![0x75u8, 0x73, 0x74, 0x61, 0x72]) {
        Some(FileFormat::TapeArchive)
    } else if occurs_at(b, 0, seq![0x4Du8, 0x53, 0x43, 0x46]) {
        Some(FileFormat::Cabinet)
    } else if occurs_at(b, 0, seq![0x7Fu8, 0x45, 0x4C, 0x46]) {
        Some(FileFormat::ExecutableAndLinkableFormat)
    } else if occurs_at(b, 0, seq![0xCAu8, 0xFE, 0xBA, 0xBE]) {
        Some(FileFormat::JavaClass)
    } else if occurs_at(b, 0, seq![0x53u8, 0x51, 0x4C, 0x69, 0x74, 0x65, 0x20, 0x66, 0x6F, 0x72, 0x6D, 0x61, 0x74, 0x20, 0x33, 0x00]) {
        Some(FileFormat::Sqlite3)
    } else if occurs_at(b, 0, seq![0x00u8, 0x61, 0x73, 0x6D]) {
        Some(FileFormat::WebAssemblyBinary)
    } else if occurs_at(b, 0, seq![0xD4u8, 0xC3, 0xB2, 0xA1])
        || occurs_at(b, 0, seq![0xA1u8, 0xB2, 0xC3, 0xD4]) {
        Some(FileFormat::PcapDump)
    } else if occurs_at(b, 0, seq![0x0Au8, 0x0D, 0x0D, 0x0A]) {
        Some(FileFormat::PcapNextGenerationDump)
    } else if occurs_at(b, 32769, seq![0x43u8, 0x44, 0x30, 0x30, 0x31])
        || occurs_at(b, 34817, seq![0x43u8, 0x44, 0x30, 0x30, 0x31])
        || occurs_at(b, 36865, seq![0x43u8, 0x44, 0x30, 0x30, 0x31]) {
        Some(FileFormat::Iso9660)
    } else if occurs_at(b, 0, seq![0xEDu8, 0xAB, 0xEE, 0xDB]) {
        Some(FileFormat::RedHatPackageManager)
    } else if occurs_at(b, 0, seq![0x64u8, 0x65, 0x78, 0x0A]) {
        Some(FileFormat::DalvikExecutable)
    } else if occurs_at(b, 0, seq![0x64u8, 0x65, 0x79, 0x0A]) {
        Some(FileFormat::OptimizedDalvikExecutable)
    } else if occurs_at(b, 0, seq![0x1Bu8, 0x4C, 0x75, 0x61]) {
        Some(FileFormat::LuaBytecode)
    } else if occurs_at(b, 0, seq![0x78u8, 0x61, 0x72, 0x21]) {
        Some(FileFormat::ExtensibleArchive)
    } else if occurs_at(b, 0, seq![0x30u8, 0x37, 0x30, 0x37, 0x30, 0x37])
        || occurs_at(b, 0, seq![0x30u8, 0x37, 0x30, 0x37, 0x30, 0x31])
        || occurs_at(b, 0, seq![0x30u8, 0x37, 0x30, 0x37, 0x30, 0x32]) {
        Some(FileFormat::Cpio)
    } else if occurs_at(b, 0, seq![0x5Au8, 0x4F, 0x4F]) && occurs_at(b, 20, seq![0xDCu8, 0xA7, 0xC4, 0xFD]) {
        Some(FileFormat::Zoo)
    } else if occurs_at(b, 0, seq![0x1Fu8, 0x9D])
        || occurs_at(b, 0, seq![0x1Fu8, 0xA0]) {
        Some(FileFormat::UnixCompress)
    } else if occurs_at(b, 0, seq![0x41u8, 0x52, 0x52, 0x4F, 0x57, 0x31]) {
        Some(FileFormat::ApacheArrowColumnar)
    } else if occurs_at(b, 0, seq![0x42u8, 0x4C, 0x45, 0x4E, 0x44, 0x45, 0x52]) {
        Some(FileFormat::Blender)
    } else if occurs_at(b, 0, seq![0x4Cu8, 0x00, 0x00, 0x00, 0x01, 0x14, 0x02, 0x00]) {
        Some(FileFormat::WindowsShortcut)
    } else if occurs_at(b, 0, seq![0x76u8, 0x68, 0x64, 0x78, 0x66, 0x69, 0x6C, 0x65]) {
        Some(FileFormat::MicrosoftVirtualHardDisk2)
    } else if occurs_at(b, 64, seq![0x7Fu8, 0x10, 0xDA, 0xBE]) {
        Some(FileFormat::VirtualBoxVirtualDiskImage)
    } else if occurs_at(b, 0, seq![0x4Fu8, 0x67, 0x67, 0x53]) {
        Some(FileFormat::OggMultiplexedMedia)
    } else if occurs_at(b, 0, seq![0x43u8, 0x72, 0x32, 0x34]) {
        Some(FileFormat::GoogleChromeExtension)
    } else if occurs_at(b, 0, seq![0x49u8, 0x54, 0x53, 0x46]) {
        Some(FileFormat::MicrosoftCompiledHtmlHelp)
    } else if occurs_at(b, 60, seq![0x42u8, 0x4F, 0x4F, 0x4B, 0x4D, 0x4F, 0x42, 0x49]) {
        Some(FileFormat::Mobipocket)
    } else if occurs_at(b, 2, seq![0x2Du8, 0x6C, 0x68]) && occurs_at(b, 6, seq![0x2Du8]) {
        Some(FileFormat::Lha)
    } else if occurs_at(b, 0, seq![0x60u8, 0xEA]) {
        Some(FileFormat::ArchivedByRobertJung)
    } else if occurs_at(b, 0, seq![0x41u8, 0x4C, 0x5A, 0x01]) {
        Some(FileFormat::Alz)
    } else if occurs_at(b, 128, seq![0x44u8, 0x49, 0x43, 0x4D]) {
        Some(FileFormat::DigitalImagingAndCommunicationsInMedicine)
    } else if occurs_at(b, 0, seq![0x66u8, 0x4C, 0x61, 0x43]) {
        Some(FileFormat::FreeLosslessAudioCodec)
    } else if occurs_at(b, 0, seq![0x49u8, 0x44, 0x33]) {
        Some(FileFormat::MpegAudioLayer3)
    } else if occurs_at(b, 192, seq![0x24u8, 0xFF, 0xAE, 0x51, 0x69, 0x9A, 0xA2, 0x21, 0x3D, 0x84, 0x82, 0x0A, 0x84, 0xE4, 0x09, 0xAD]) {
        Some(FileFormat::NintendoDsRom)
    } else if occurs_at(b, 4, seq![0x24u8, 0xFF, 0xAE, 0x51, 0x69, 0x9A, 0xA2, 0x21]) {
        Some(FileFormat::GameBoyAdvanceRom)
    } else if (occurs_at(b, 260, seq![0xCEu8, 0xED, 0x66, 0x66, 0xCC, 0x0D, 0x00, 0x0B]) && occurs_at(b, 323, seq![0x80u8]))
        || (occurs_at(b, 260, seq![0xCEu8, 0xED, 0x66, 0x66, 0xCC, 0x0D, 0x00, 0x0B]) && occurs_at(b, 323, seq![0xC0u8])) {
        Some(FileFormat::GameBoyColorRom)
    } else if occurs_at(b, 260, seq![0xCEu8, 0xED, 0x66, 0x66, 0xCC, 0x0D, 0x00, 0x0B]) {
        Some(FileFormat::GameBoyRom)
    } else if occurs_at(b, 0, seq![0x80u8, 0x37, 0x12, 0x40])
        || occurs_at(b, 0, seq![0x37u8, 0x80, 0x40, 0x12])
        || occurs_at(b, 0, seq![0x40u8, 0x12, 0x37, 0x80]) {
        Some(FileFormat::Nintendo64Rom)
    } else if occurs_at(b, 0, seq![0x4Eu8, 0x45, 0x53, 0x1A]) {
        Some(FileFormat::NintendoEntertainmentSystemRom)
    } else if occurs_at(b, 0, seq![0x63u8, 0x6F, 0x6E, 0x65, 0x63, 0x74, 0x69, 0x78]) {
        Some(FileFormat::MicrosoftVirtualHardDisk)
    } else if occurs_at(b, 0, seq![0xFFu8, 0x06, 0x00, 0x00, 0x73, 0x4E, 0x61, 0x50, 0x70, 0x59]) {
        Some(FileFormat::Snappy)
    } else if occurs_at(b, 0, seq![0x4Cu8, 0x52, 0x5A, 0x49]) {
        Some(FileFormat::LongRangeZip)
    } else if occurs_at(b, 0, seq![0xFEu8, 0xED, 0xFE, 0xED]) {
        Some(FileFormat::JavaKeyStore)
    } else if occurs_at(b, 0, seq![0x62u8, 0x6F, 0x6F, 0x6B, 0x00, 0x00, 0x00, 0x00, 0x6D, 0x61, 0x72, 0x6B, 0x00, 0x00, 0x00, 0x00]) {
        Some(FileFormat::MacOsAlias)
    } else if occurs_at(b, 0, seq![0x06u8, 0x0E, 0x2B, 0x34, 0x02, 0x05, 0x01, 0x01, 0x0D, 0x01, 0x02, 0x01, 0x01, 0x02]) {
        Some(FileFormat::MaterialExchangeFormat)
    } else if occurs_at(b, 0, seq![0x53u8, 0x42, 0x78]) {
        Some(FileFormat::SeqBox)
    } else if occurs_at(b, 0, seq![0x00u8, 0x00, 0x27, 0x0A]) {
        Some(FileFormat::Shapefile)
    } else if occurs_at(b, 0, seq![0xFFu8, 0xFE, 0xFF, 0x0E, 0x53, 0x00, 0x6B, 0x00, 0x65, 0x00, 0x74, 0x00, 0x63, 0x00, 0x68, 0x00, 0x55, 0x00, 0x70, 0x00]) {
        Some(FileFormat::SketchUp)
    } else if occurs_at(b, 0, seq![0x46u8, 0x57, 0x53])
        || occurs_at(b, 0, seq![0x43u8, 0x57, 0x53])
        || occurs_at(b, 0, seq![0x5Au8, 0x57, 0x53]) {
        Some(FileFormat::SmallWebFormat)
    } else if occurs_at(b, 0, seq![0x62u8, 0x76, 0x78, 0x2D])
        || occurs_at(b, 0, seq![0x62u8, 0x76, 0x78, 0x31])
        || occurs_at(b, 0, seq![0x62u8, 0x76, 0x78, 0x32])
        || occurs_at(b, 0, seq![0x62u8, 0x76, 0x78, 0x6E]) {
        Some(FileFormat::LempelZivFiniteStateEntropy)
    } else if occurs_at(b, 0, seq![0x49u8, 0x49, 0x2A, 0x00])
        || occurs_at(b, 0, seq![0x4Du8, 0x4D, 0x00, 0x2A]) {
        Some(FileFormat::TagImageFileFormat)
    } else if occurs_at(b, 0, seq![0x52u8, 0x49, 0x46, 0x46]) && occurs_at(b, 8, seq![0x57u8, 0x45, 0x42, 0x50]) {
        Some(FileFormat::WebP)
    } else {
        None
    }
}

/// Matches `b`, a prefix of the stream, against the catalog.
pub fn from_signature(b: &[u8]) -> (r: Option<FileFormat>)
    ensures
        r == signature_of(b@),
{
    if has_at(b, 0, &[0x89u8, 0x50, 0x4E, 0x47, 0x0D, 0x0A, 0x1A, 0x0A]) {
        Some(FileFormat::PortableNetworkGraphics)
    } else if has_at(b, 0, &[0x21u8, 0x3C, 0x61, 0x72, 0x63, 0x68, 0x3E, 0x0A, 0x64, 0x65, 0x62, 0x69, 0x61, 0x6E, 0x2D, 0x62, 0x69, 0x6E, 0x61, 0x72, 0x79]) {
        Some(FileFormat::DebianBinaryPackage)
    } else if has_at(b, 0, &[0x21u8, 0x3C, 0x61, 0x72, 0x63, 0x68, 0x3E, 0x0A]) {
        Some(FileFormat::UnixArchiver)
    } else if has_at(b, 0, &[0x52u8, 0x49, 0x46, 0x46]) && has_at(b, 8, &[0x57u8, 0x41, 0x56, 0x45]) {
        Some(FileFormat::WaveformAudio)
    } else if has_at(b, 0, &[0x52u8, 0x49, 0x46, 0x46]) && has_at(b, 8, &[0x41u8, 0x56, 0x49, 0x20]) {
        Some(FileFormat::AudioVideoInterleave)
    } else if has_at(b, 0, &[0x52u8, 0x49, 0x46, 0x46]) && has_at(b, 8, &[0x41u8, 0x43, 0x4F, 0x4E]) {
        Some(FileFormat::Ani)
    } else if has_at(b, 0, &[0x50u8, 0x4B, 0x03, 0x04])
        || has_at(b, 0, &[0x50u8, 0x4B, 0x05, 0x06])
        || has_at(b, 0, &[0x50u8, 0x4B, 0x07, 0x08]) {
        Some(FileFormat::Zip)
    } else if has_at(b, 0, &[0xD0u8, 0xCF, 0x11, 0xE0, 0xA1, 0xB1, 0x1A, 0xE1]) {
        Some(FileFormat::CompoundFileBinary)
    } else if has_at(b, 0, &[0x1Au8, 0x45, 0xDF, 0xA3]) {
        Some(FileFormat::ExtensibleBinaryMetaLanguage)
    } else if has_at(b, 4, &[0x66u8, 0x74, 0x79, 0x70]) {
        Some(FileFormat::Mpeg4Part14)
    } else if has_at(b, 0, &[0x25u8, 0x50, 0x44, 0x46, 0x2D]) {
        Some(FileFormat::PortableDocumentFormat)
    } else if has_at(b, 0, &[0x30u8, 0x26, 0xB2, 0x75, 0x8E, 0x66, 0xCF, 0x11, 0xA6, 0xD9, 0x00, 0xAA, 0x00, 0x62, 0xCE, 0x6C]) {
        Some(FileFormat::AdvancedSystemsFormat)
    } else if has_at(b, 0, &[0x2Eu8, 0x52, 0x4D, 0x46]) {
        Some(FileFormat::Realmedia)
    } else if has_at(b, 0, &[0x4Du8, 0x5A]) {
        Some(FileFormat::MsDosExecutable)
    } else if has_at(b, 0, &[0xFFu8, 0xD8, 0xFF]) {
        Some(FileFormat::JointPhotographicExpertsGroup)
    } else if has_at(b, 0, &[0x47u8, 0x49, 0x46, 0x38, 0x37, 0x61])
        || has_at(b, 0, &[0x47u8, 0x49, 0x46, 0x38, 0x39, 0x61]) {
        Some(FileFormat::GraphicsInterchangeFormat)
    } else if has_at(b, 0, &[0x1Fu8, 0x8B]) {
        Some(FileFormat::Gzip)
    } else if has_at(b, 0, &[0x42u8, 0x5A, 0x68]) {
        Some(FileFormat::Bzip2)
    } else if has_at(b, 0, &[0xFDu8, 0x37, 0x7A, 0x58, 0x5A, 0x00]) {
        Some(FileFormat::Xz)
    } else if has_at(b, 0, &[0x37u8, 0x7A, 0xBC, 0xAF, 0x27, 0x1C]) {
        Some(FileFormat::SevenZip)
    } else if has_at(b, 0, &[0x28u8, 0xB5, 0x2F, 0xFD]) {
        Some(FileFormat::Zstandard)
    } else if has_at(b, 0, &[0x04u8, 0x22, 0x4D, 0x18]) {
        Some(FileFormat::Lz4)
    } else if has_at(b, 0, &[0x4Cu8, 0x5A, 0x49, 0x50]) {
        Some(FileFormat::Lzip)
    } else if has_at(b, 0, &[0x89u8, 0x4C, 0x5A, 0x4F, 0x00, 0x0D, 0x0A, 0x1A, 0x0A]) {
        Some(FileFormat::Lzop)
    } else if has_at(b, 0, &[0x52u8, 0x61, 0x72, 0x21, 0x1A, 0x07]) {
        Some(FileFormat::RoshalArchive)
    } else if has_at(b, 257, &[0x75u8, 0x73, 0x74, 0x61, 0x72]) {
        Some(FileFormat::TapeArchive)
    } else if has_at(b, 0, &[0x4Du8, 0x53, 0x43, 0x46]) {
        Some(FileFormat::Cabinet)
    } else if has_at(b, 0, &[0x7Fu8, 0x45, 0x4C, 0x46]) {
        Some(FileFormat::ExecutableAndLinkableFormat)
    } else if has_at(b, 0, &[0xCAu8, 0xFE, 0xBA, 0xBE]) {
        Some(FileFormat::JavaClass)
    } else if has_at(b, 0, &[0x53u8, 0x51, 0x4C, 0x69, 0x74, 0x65, 0x20, 0x66, 0x6F, 0x72, 0x6D, 0x61, 0x74, 0x20, 0x33, 0x00]) {
        Some(FileFormat::Sqlite3)
    } else if has_at(b, 0, &[0x00u8, 0x61, 0x73, 0x6D]) {
        Some(FileFormat::WebAssemblyBinary)
    } else if has_at(b, 0, &[0xD4u8, 0xC3, 0xB2, 0xA1])
        || has_at(b, 0, &[0xA1u8, 0xB2, 0xC3, 0xD4]) {
        Some(FileFormat::PcapDump)
    } else if has_at(b, 0, &[0x0Au8, 0x0D, 0x0D, 0x0A]) {
        Some(FileFormat::PcapNextGenerationDump)
    } else if has_at(b, 32769, &[0x43u8, 0x44, 0x30, 0x30, 0x31])
        || has_at(b, 34817, &[0x43u8, 0x44, 0x30, 0x30, 0x31])
        || has_at(b, 36865, &[0x43u8, 0x44, 0x30, 0x30, 0x31]) {
        Some(FileFormat::Iso9660)
    } else if has_at(b, 0, &[0xEDu8, 0xAB, 0xEE, 0xDB]) {
        Some(FileFormat::RedHatPackageManager)
    } else if has_at(b, 0, &[0x64u8, 0x65, 0x78, 0x0A]) {
        Some(FileFormat::DalvikExecutable)
    } else if has_at(b, 0, &[0x64u8, 0x65, 0x79, 0x0A]) {
        Some(FileFormat::OptimizedDalvikExecutable)
    } else if has_at(b, 0, &[0x1Bu8, 0x4C, 0x75, 0x61]) {
        Some(FileFormat::LuaBytecode)
    } else if has_at(b, 0, &[0x78u8, 0x61, 0x72, 0x21]) {
        Some(FileFormat::ExtensibleArchive)
    } else if has_at(b, 0, &[0x30u8, 0x37, 0x30, 0x37, 0x30, 0x37])
        || has_at(b, 0, &[0x30u8, 0x37, 0x30, 0x37, 0x30, 0x31])
        || has_at(b, 0, &[0x30u8, 0x37, 0x30, 0x37, 0x30, 0x32]) {
        Some(FileFormat::Cpio)
    } else if has_at(b, 0, &[0x5Au8, 0x4F, 0x4F]) && has_at(b, 20, &[0xDCu8, 0xA7, 0xC4, 0xFD]) {
        Some(FileFormat::Zoo)
    } else if has_at(b, 0, &[0x1Fu8, 0x9D])
        || has_at(b, 0, &[0x1Fu8, 0xA0]) {
        Some(FileFormat::UnixCompress)
    } else if has_at(b, 0, &[0x41u8, 0x52, 0x52, 0x4F, 0x57, 0x31]) {
        Some(FileFormat::ApacheArrowColumnar)
    } else if has_at(b, 0, &[0x42u8, 0x4C, 0x45, 0x4E, 0x44, 0x45, 0x52]) {
        Some(FileFormat::Blender)
    } else if has_at(b, 0, &[0x4Cu8, 0x00, 0x00, 0x00, 0x01, 0x14, 0x02, 0x00]) {
        Some(FileFormat::WindowsShortcut)
    } else if has_at(b, 0, &[0x76u8, 0x68, 0x64, 0x78, 0x66, 0x69, 0x6C, 0x65]) {
        Some(FileFormat::MicrosoftVirtualHardDisk2)
    } else if has_at(b, 64, &[0x7Fu8, 0x10, 0xDA, 0xBE]) {
        Some(FileFormat::VirtualBoxVirtualDiskImage)
    } else if has_at(b, 0, &[0x4Fu8, 0x67, 0x67, 0x53]) {
        Some(FileFormat::OggMultiplexedMedia)
    } else if has_at(b, 0, &[0x43u8, 0x72, 0x32, 0x34]) {
        Some(FileFormat::GoogleChromeExtension)
    } else if has_at(b, 0, &[0x49u8, 0x54, 0x53, 0x46]) {
        Some(FileFormat::MicrosoftCompiledHtmlHelp)
    } else if has_at(b, 60, &[0x42u8, 0x4F, 0x4F, 0x4B, 0x4D, 0x4F, 0x42, 0x49]) {
        Some(FileFormat::Mobipocket)
    } else if has_at(b, 2, &[0x2Du8, 0x6C, 0x68]) && has_at(b, 6, &[0x2Du8]) {
        Some(FileFormat::Lha)
    } else if has_at(b, 0, &[0x60u8, 0xEA]) {
        Some(FileFormat::ArchivedByRobertJung)
    } else if has_at(b, 0, &[0x41u8, 0x4C, 0x5A, 0x01]) {
        Some(FileFormat::Alz)
    } else if has_at(b, 128, &[0x44u8, 0x49, 0x43, 0x4D]) {
        Some(FileFormat::DigitalImagingAndCommunicationsInMedicine)
    } else if has_at(b, 0, &[0x66u8, 0x4C, 0x61, 0x43]) {
        Some(FileFormat::FreeLosslessAudioCodec)
    } else if has_at(b, 0, &[0x49u8, 0x44, 0x33]) {
        Some(FileFormat::MpegAudioLayer3)
    } else if has_at(b, 192, &[0x24u8, 0xFF, 0xAE, 0x51, 0x69, 0x9A, 0xA2, 0x21, 0x3D, 0x84, 0x82, 0x0A, 0x84, 0xE4, 0x09, 0xAD]) {
        Some(FileFormat::NintendoDsRom)
    } else if has_at(b, 4, &[0x24u8, 0xFF, 0xAE, 0x51, 0x69, 0x9A, 0xA2, 0x21]) {
        Some(FileFormat::GameBoyAdvanceRom)
    } else if (has_at(b, 260, &[0xCEu8, 0xED, 0x66, 0x66, 0xCC, 0x0D, 0x00, 0x0B]) && has_at(b, 323, &[0x80u8]))
        || (has_at(b, 260, &[0xCEu8, 0xED, 0x66, 0x66, 0xCC, 0x0D, 0x00, 0x0B]) && has_at(b, 323, &[0xC0u8])) {
        Some(FileFormat::GameBoyColorRom)
    } else if has_at(b, 260, &[0xCEu8, 0xED, 0x66, 0x66, 0xCC, 0x0D, 0x00, 0x0B]) {
        Some(FileFormat::GameBoyRom)
    } else if has_at(b, 0, &[0x80u8, 0x37, 0x12, 0x40])
        || has_at(b, 0, &[0x37u8, 0x80, 0x40, 0x12])
        || has_at(b, 0, &[0x40u8, 0x12, 0x37, 0x80]) {
        Some(FileFormat::Nintendo64Rom)
    } else if has_at(b, 0, &[0x4Eu8, 0x45, 0x53, 0x1A]) {
        Some(FileFormat::NintendoEntertainmentSystemRom)
    } else if has_at(b, 0, &[0x63u8, 0x6F, 0x6E, 0x65, 0x63, 0x74, 0x69, 0x78]) {
        Some(FileFormat::MicrosoftVirtualHardDisk)
    } else if has_at(b, 0, &[0xFFu8, 0x06, 0x00, 0x00, 0x73, 0x4E, 0x61, 0x50, 0x70, 0x59]) {
        Some(FileFormat::Snappy)
    } else if has_at(b, 0, &[0x4Cu8, 0x52, 0x5A, 0x49]) {
        Some(FileFormat::LongRangeZip)
    } else if has_at(b, 0, &[0xFEu8, 0xED, 0xFE, 0xED]) {
        Some(FileFormat::JavaKeyStore)
    } else if has_at(b, 0, &[0x62u8, 0x6F, 0x6F, 0x6B, 0x00, 0x00, 0x00, 0x00, 0x6D, 0x61, 0x72, 0x6B, 0x00, 0x00, 0x00, 0x00]) {
        Some(FileFormat::MacOsAlias)
    } else if has_at(b, 0, &[0x06u8, 0x0E, 0x2B, 0x34, 0x02, 0x05, 0x01, 0x01, 0x0D, 0x01, 0x02, 0x01, 0x01, 0x02]) {
        Some(FileFormat::MaterialExchangeFormat)
    } else if has_at(b, 0, &[0x53u8, 0x42, 0x78]) {
        Some(FileFormat::SeqBox)
    } else if has_at(b, 0, &[0x00u8, 0x00, 0x27, 0x0A]) {
        Some(FileFormat::Shapefile)
    } else if has_at(b, 0, &[0xFFu8, 0xFE, 0xFF, 0x0E, 0x53, 0x00, 0x6B, 0x00, 0x65, 0x00, 0x74, 0x00, 0x63, 0x00, 0x68, 0x00, 0x55, 0x00, 0x70, 0x00]) {
        Some(FileFormat::SketchUp)
    } else if has_at(b, 0, &[0x46u8, 0x57, 0x53])
        || has_at(b, 0, &[0x43u8, 0x57, 0x53])
        || has_at(b, 0, &[0x5Au8, 0x57, 0x53]) {
        Some(FileFormat::SmallWebFormat)
    } else if has_at(b, 0, &[0x62u8, 0x76, 0x78, 0x2D])
        || has_at(b, 0, &[0x62u8, 0x76, 0x78, 0x31])
        || has_at(b, 0, &[0x62u8, 0x76, 0x78, 0x32])
        || has_at(b, 0, &[0x62u8, 0x76, 0x78, 0x6E]) {
        Some(FileFormat::LempelZivFiniteStateEntropy)
    } else if has_at(b, 0, &[0x49u8, 0x49, 0x2A, 0x00])
        || has_at(b, 0, &[0x4Du8, 0x4D, 0x00, 0x2A]) {
        Some(FileFormat::TagImageFileFormat)
    } else if has_at(b, 0, &[0x52u8, 0x49, 0x46, 0x46]) && has_at(b, 8, &[0x57u8, 0x45, 0x42, 0x50]) {
        Some(FileFormat::WebP)
    } else {
        None
    }
}

} // verus!

