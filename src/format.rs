//! The closed set of formats that detection can name, and their broad kinds.

use vstd::prelude::*;

verus! {

/// A file format, as named by detection.
///
/// Three variants are fallbacks rather than formats: `Empty` for a stream of
/// no bytes, `PlainText` for unrecognised text and `ArbitraryBinaryData` for
/// everything else.
#[derive(Clone, Copy, Debug, PartialEq, Eq, Structural)]
pub enum FileFormat {
    /// A stream of zero bytes.
    Empty,
    /// Data that nothing more specific describes.
    ArbitraryBinaryData,
    /// Unrecognised ASCII/UTF-8 text.
    PlainText,
    /// 7-Zip archive.
    SevenZip,
    /// Adobe Illustrator artwork, a PDF written by Illustrator.
    AdobeIllustratorArtwork,
    /// ALZip archive.
    Alz,
    /// Windows animated cursor.
    Ani,
    /// Android application package.
    AndroidPackage,
    /// Apache Arrow columnar file.
    ApacheArrowColumnar,
    /// ARJ archive.
    ArchivedByRobertJung,
    /// Advanced Systems Format container.
    AdvancedSystemsFormat,
    /// Audio Video Interleave.
    AudioVideoInterleave,
    /// Blender scene.
    Blender,
    /// bzip2 stream.
    Bzip2,
    /// Microsoft cabinet archive.
    Cabinet,
    /// Compound File Binary container.
    CompoundFileBinary,
    /// cpio archive, portable ASCII header.
    Cpio,
    /// Dalvik executable.
    DalvikExecutable,
    /// Debian binary package.
    DebianBinaryPackage,
    /// DICOM medical image.
    DigitalImagingAndCommunicationsInMedicine,
    /// Dynamic link library, a portable executable marked as a library.
    DynamicLinkLibrary,
    /// EPUB electronic publication.
    ElectronicPublication,
    /// Executable and Linkable Format.
    ExecutableAndLinkableFormat,
    /// Extensible Binary Meta Language container.
    ExtensibleBinaryMetaLanguage,
    /// Free Lossless Audio Codec.
    FreeLosslessAudioCodec,
    /// Google Chrome extension.
    GoogleChromeExtension,
    /// Graphics Interchange Format.
    GraphicsInterchangeFormat,
    /// gzip stream.
    Gzip,
    /// ISO 9660 disc image.
    Iso9660,
    /// Java archive.
    JavaArchive,
    /// Java class file.
    JavaClass,
    /// Enterprise application archive.
    EnterpriseApplicationArchive,
    /// JPEG image.
    JointPhotographicExpertsGroup,
    /// LHA archive.
    Lha,
    /// Linear executable.
    LinearExecutable,
    /// Lua bytecode.
    LuaBytecode,
    /// LZ4 frame.
    Lz4,
    /// lzip stream.
    Lzip,
    /// lzop stream.
    Lzop,
    /// Matroska with a stereoscopic video track.
    Matroska3dVideo,
    /// Matroska with audio tracks only.
    MatroskaAudio,
    /// Matroska with subtitle tracks only.
    MatroskaSubtitles,
    /// Matroska with a video track.
    MatroskaVideo,
    /// Microsoft compiled HTML help.
    MicrosoftCompiledHtmlHelp,
    /// Microsoft Excel spreadsheet, binary format.
    MicrosoftExcelSpreadsheet,
    /// Microsoft PowerPoint presentation, binary format.
    MicrosoftPowerPointPresentation,
    /// Microsoft Project plan.
    MicrosoftProjectPlan,
    /// Microsoft Publisher document.
    MicrosoftPublisherDocument,
    /// Microsoft Windows installer package.
    MicrosoftSoftwareInstaller,
    /// Microsoft virtual hard disk, second version.
    MicrosoftVirtualHardDisk2,
    /// Microsoft Visio drawing, binary format.
    MicrosoftVisioDrawing,
    /// Visual Studio extension.
    MicrosoftVisualStudioExtension,
    /// Microsoft Word document, binary format.
    MicrosoftWordDocument,
    /// Mobipocket e-book.
    Mobipocket,
    /// MPEG-1/2 audio layer 3 with an ID3v2 tag.
    MpegAudioLayer3,
    /// MPEG-4 Part 14 container.
    Mpeg4Part14,
    /// MPEG-4 Part 14 with audio tracks only.
    Mpeg4Part14Audio,
    /// MPEG-4 Part 14 with subtitle tracks only.
    Mpeg4Part14Subtitles,
    /// MPEG-4 Part 14 with a video track.
    Mpeg4Part14Video,
    /// MS-DOS executable.
    MsDosExecutable,
    /// New executable, 16-bit Windows or OS/2.
    NewExecutable,
    /// Office Open XML document.
    OfficeOpenXmlDocument,
    /// Office Open XML drawing.
    OfficeOpenXmlDrawing,
    /// Office Open XML presentation.
    OfficeOpenXmlPresentation,
    /// Office Open XML spreadsheet.
    OfficeOpenXmlSpreadsheet,
    /// Ogg container.
    OggMultiplexedMedia,
    /// OpenDocument graphics.
    OpenDocumentGraphics,
    /// OpenDocument presentation.
    OpenDocumentPresentation,
    /// OpenDocument spreadsheet.
    OpenDocumentSpreadsheet,
    /// OpenDocument text.
    OpenDocumentText,
    /// Optimized Dalvik executable.
    OptimizedDalvikExecutable,
    /// pcap capture.
    PcapDump,
    /// pcapng capture.
    PcapNextGenerationDump,
    /// Portable Document Format.
    PortableDocumentFormat,
    /// Portable executable.
    PortableExecutable,
    /// Portable Network Graphics.
    PortableNetworkGraphics,
    /// RealAudio, a RealMedia file with audio streams only.
    Realaudio,
    /// RealMedia container.
    Realmedia,
    /// RealVideo, a RealMedia file with a video stream.
    Realvideo,
    /// RPM package.
    RedHatPackageManager,
    /// RAR archive.
    RoshalArchive,
    /// SQLite 3 database.
    Sqlite3,
    /// POSIX tar archive.
    TapeArchive,
    /// 3D Manufacturing Format.
    ThreeDimensionalManufacturingFormat,
    /// Unix `ar` archive.
    UnixArchiver,
    /// Unix `compress` stream.
    UnixCompress,
    /// VirtualBox virtual disk image.
    VirtualBoxVirtualDiskImage,
    /// Waveform audio.
    WaveformAudio,
    /// Web application archive.
    WebApplicationArchive,
    /// WebAssembly binary.
    WebAssemblyBinary,
    /// WebM, the web profile of Matroska.
    Webm,
    /// Windows Media Audio.
    WindowsMediaAudio,
    /// Windows Media Video.
    WindowsMediaVideo,
    /// Windows shell link.
    WindowsShortcut,
    /// Silverlight application package.
    Xap,
    /// Extensible archive.
    ExtensibleArchive,
    /// Mozilla extension installer.
    XpInstall,
    /// xz stream.
    Xz,
    /// ZIP archive.
    Zip,
    /// Zoo archive.
    Zoo,
    /// Zstandard frame.
    Zstandard,
    /// Nintendo DS cartridge image.
    NintendoDsRom,
    /// Game Boy Advance cartridge image.
    GameBoyAdvanceRom,
    /// Game Boy Color cartridge image.
    GameBoyColorRom,
    /// Game Boy cartridge image.
    GameBoyRom,
    /// Nintendo 64 cartridge image, in any of its byte orders.
    Nintendo64Rom,
    /// NES cartridge image in iNES form.
    NintendoEntertainmentSystemRom,
    /// Microsoft virtual hard disk.
    MicrosoftVirtualHardDisk,
    /// Snappy framed stream.
    Snappy,
    /// lrzip stream.
    LongRangeZip,
    /// Java key store.
    JavaKeyStore,
    /// macOS alias bookmark.
    MacOsAlias,
    /// Material Exchange Format.
    MaterialExchangeFormat,
    /// SeqBox container.
    SeqBox,
    /// ESRI shapefile.
    Shapefile,
    /// SketchUp model.
    SketchUp,
    /// Adobe Flash movie.
    SmallWebFormat,
    /// LZFSE stream.
    LempelZivFiniteStateEntropy,
    /// Tagged Image File Format.
    TagImageFileFormat,
    /// WebP image.
    WebP,
}

impl Default for FileFormat {
    /// The fallback format, arbitrary binary data.
    fn default() -> (r: FileFormat)
        ensures
            r == FileFormat::ArbitraryBinaryData,
    {
        FileFormat::ArbitraryBinaryData
    }
}

/// A broad kind of [`FileFormat`].
#[derive(Clone, Copy, Debug, PartialEq, Eq, Structural)]
pub enum Kind {
    /// Data for some application program that fits no other kind.
    Application,
    /// Files and directories stored in a single, possibly compressed, archive.
    Archive,
    /// Music, sound effects and spoken recordings.
    Audio,
    /// E-books.
    Book,
    /// Digital certificates.
    Certificate,
    /// Compressed single files or streams.
    Compression,
    /// Organised collections of data.
    Database,
    /// Disk and disc images.
    Disk,
    /// Formatted documents: text, spreadsheets, presentations, diagrams.
    Document,
    /// Machine code, virtual machine code and shared libraries.
    Executable,
    /// Typefaces.
    Font,
    /// Geospatial features and tracks.
    Geospatial,
    /// Photographs, illustrations and other images.
    Image,
    /// 3D models and CAD drawings.
    Model,
    /// Bundles of programs and resources that run on a target environment.
    Package,
    /// Ordered lists of media files.
    Playlist,
    /// Copies of read-only memory chips.
    Rom,
    /// Subtitles and captions.
    Subtitle,
    /// Web feeds.
    Syndication,
    /// Plain text, source code and markup.
    Text,
    /// Moving images, possibly with sound.
    Video,
}

impl FileFormat {
    /// The broad kind that the format belongs to.
    pub fn kind(&self) -> (r: Kind)
        ensures
            r == kind_of(*self),
    {
        match self {
            FileFormat::Empty => Kind::Application,
            FileFormat::ArbitraryBinaryData => Kind::Application,
            FileFormat::PlainText => Kind::Text,
            FileFormat::SevenZip => Kind::Archive,
            FileFormat::AdobeIllustratorArtwork => Kind::Image,
            FileFormat::Alz => Kind::Archive,
            FileFormat::Ani => Kind::Image,
            FileFormat::AndroidPackage => Kind::Package,
            FileFormat::ApacheArrowColumnar => Kind::Application,
            FileFormat::ArchivedByRobertJung => Kind::Archive,
            FileFormat::AdvancedSystemsFormat => Kind::Video,
            FileFormat::AudioVideoInterleave => Kind::Video,
            FileFormat::Blender => Kind::Model,
            FileFormat::Bzip2 => Kind::Compression,
            FileFormat::Cabinet => Kind::Archive,
            FileFormat::CompoundFileBinary => Kind::Application,
            FileFormat::Cpio => Kind::Archive,
            FileFormat::DalvikExecutable => Kind::Executable,
            FileFormat::DebianBinaryPackage => Kind::Package,
            FileFormat::DigitalImagingAndCommunicationsInMedicine => Kind::Image,
            FileFormat::DynamicLinkLibrary => Kind::Executable,
            FileFormat::ElectronicPublication => Kind::Book,
            FileFormat::ExecutableAndLinkableFormat => Kind::Executable,
            FileFormat::ExtensibleBinaryMetaLanguage => Kind::Application,
            FileFormat::FreeLosslessAudioCodec => Kind::Audio,
            FileFormat::GoogleChromeExtension => Kind::Package,
            FileFormat::GraphicsInterchangeFormat => Kind::Image,
            FileFormat::Gzip => Kind::Compression,
            FileFormat::Iso9660 => Kind::Disk,
            FileFormat::JavaArchive => Kind::Package,
            FileFormat::JavaClass => Kind::Executable,
            FileFormat::EnterpriseApplicationArchive => Kind::Package,
            FileFormat::JointPhotographicExpertsGroup => Kind::Image,
            FileFormat::Lha => Kind::Archive,
            FileFormat::LinearExecutable => Kind::Executable,
            FileFormat::LuaBytecode => Kind::Executable,
            FileFormat::Lz4 => Kind::Compression,
            FileFormat::Lzip => Kind::Compression,
            FileFormat::Lzop => Kind::Compression,
            FileFormat::Matroska3dVideo => Kind::Video,
            FileFormat::MatroskaAudio => Kind::Audio,
            FileFormat::MatroskaSubtitles => Kind::Subtitle,
            FileFormat::MatroskaVideo => Kind::Video,
            FileFormat::MicrosoftCompiledHtmlHelp => Kind::Document,
            FileFormat::MicrosoftExcelSpreadsheet => Kind::Document,
            FileFormat::MicrosoftPowerPointPresentation => Kind::Document,
            FileFormat::MicrosoftProjectPlan => Kind::Document,
            FileFormat::MicrosoftPublisherDocument => Kind::Document,
            FileFormat::MicrosoftSoftwareInstaller => Kind::Package,
            FileFormat::MicrosoftVirtualHardDisk2 => Kind::Disk,
            FileFormat::MicrosoftVisioDrawing => Kind::Document,
            FileFormat::MicrosoftVisualStudioExtension => Kind::Package,
            FileFormat::MicrosoftWordDocument => Kind::Document,
            FileFormat::Mobipocket => Kind::Book,
            FileFormat::MpegAudioLayer3 => Kind::Audio,
            FileFormat::Mpeg4Part14 => Kind::Video,
            FileFormat::Mpeg4Part14Audio => Kind::Audio,
            FileFormat::Mpeg4Part14Subtitles => Kind::Subtitle,
            FileFormat::Mpeg4Part14Video => Kind::Video,
            FileFormat::MsDosExecutable => Kind::Executable,
            FileFormat::NewExecutable => Kind::Executable,
            FileFormat::OfficeOpenXmlDocument => Kind::Document,
            FileFormat::OfficeOpenXmlDrawing => Kind::Document,
            FileFormat::OfficeOpenXmlPresentation => Kind::Document,
            FileFormat::OfficeOpenXmlSpreadsheet => Kind::Document,
            FileFormat::OggMultiplexedMedia => Kind::Video,
            FileFormat::OpenDocumentGraphics => Kind::Document,
            FileFormat::OpenDocumentPresentation => Kind::Document,
            FileFormat::OpenDocumentSpreadsheet => Kind::Document,
            FileFormat::OpenDocumentText => Kind::Document,
            FileFormat::OptimizedDalvikExecutable => Kind::Executable,
            FileFormat::PcapDump => Kind::Application,
            FileFormat::PcapNextGenerationDump => Kind::Application,
            FileFormat::PortableDocumentFormat => Kind::Document,
            FileFormat::PortableExecutable => Kind::Executable,
            FileFormat::PortableNetworkGraphics => Kind::Image,
            FileFormat::Realaudio => Kind::Audio,
            FileFormat::Realmedia => Kind::Video,
            FileFormat::Realvideo => Kind::Video,
            FileFormat::RedHatPackageManager => Kind::Package,
            FileFormat::RoshalArchive => Kind::Archive,
            FileFormat::Sqlite3 => Kind::Database,
            FileFormat::TapeArchive => Kind::Archive,
            FileFormat::ThreeDimensionalManufacturingFormat => Kind::Model,
            FileFormat::UnixArchiver => Kind::Archive,
            FileFormat::UnixCompress => Kind::Compression,
            FileFormat::VirtualBoxVirtualDiskImage => Kind::Disk,
            FileFormat::WaveformAudio => Kind::Audio,
            FileFormat::WebApplicationArchive => Kind::Package,
            FileFormat::WebAssemblyBinary => Kind::Executable,
            FileFormat::Webm => Kind::Video,
            FileFormat::WindowsMediaAudio => Kind::Audio,
            FileFormat::WindowsMediaVideo => Kind::Video,
            FileFormat::WindowsShortcut => Kind::Application,
            FileFormat::Xap => Kind::Package,
            FileFormat::ExtensibleArchive => Kind::Archive,
            FileFormat::XpInstall => Kind::Package,
            FileFormat::Xz => Kind::Compression,
            FileFormat::Zip => Kind::Archive,
            FileFormat::Zoo => Kind::Archive,
            FileFormat::Zstandard => Kind::Compression,
            FileFormat::NintendoDsRom => Kind::Rom,
            FileFormat::GameBoyAdvanceRom => Kind::Rom,
            FileFormat::GameBoyColorRom => Kind::Rom,
            FileFormat::GameBoyRom => Kind::Rom,
            FileFormat::Nintendo64Rom => Kind::Rom,
            FileFormat::NintendoEntertainmentSystemRom => Kind::Rom,
            FileFormat::MicrosoftVirtualHardDisk => Kind::Disk,
            FileFormat::Snappy => Kind::Compression,
            FileFormat::LongRangeZip => Kind::Compression,
            FileFormat::JavaKeyStore => Kind::Certificate,
            FileFormat::MacOsAlias => Kind::Application,
            FileFormat::MaterialExchangeFormat => Kind::Video,
            FileFormat::SeqBox => Kind::Archive,
            FileFormat::Shapefile => Kind::Geospatial,
            FileFormat::SketchUp => Kind::Model,
            FileFormat::SmallWebFormat => Kind::Application,
            FileFormat::LempelZivFiniteStateEntropy => Kind::Compression,
            FileFormat::TagImageFileFormat => Kind::Image,
            FileFormat::WebP => Kind::Image,
        }
    }
}

/// The broad kind of each format.
pub open spec fn kind_of(f: FileFormat) -> Kind {
    match f {
        FileFormat::Empty => Kind::Application,
        FileFormat::ArbitraryBinaryData => Kind::Application,
        FileFormat::PlainText => Kind::Text,
        FileFormat::SevenZip => Kind::Archive,
        FileFormat::AdobeIllustratorArtwork => Kind::Image,
        FileFormat::Alz => Kind::Archive,
        FileFormat::Ani => Kind::Image,
        FileFormat::AndroidPackage => Kind::Package,
        FileFormat::ApacheArrowColumnar => Kind::Application,
        FileFormat::ArchivedByRobertJung => Kind::Archive,
        FileFormat::AdvancedSystemsFormat => Kind::Video,
        FileFormat::AudioVideoInterleave => Kind::Video,
        FileFormat::Blender => Kind::Model,
        FileFormat::Bzip2 => Kind::Compression,
        FileFormat::Cabinet => Kind::Archive,
        FileFormat::CompoundFileBinary => Kind::Application,
        FileFormat::Cpio => Kind::Archive,
        FileFormat::DalvikExecutable => Kind::Executable,
        FileFormat::DebianBinaryPackage => Kind::Package,
        FileFormat::DigitalImagingAndCommunicationsInMedicine => Kind::Image,
        FileFormat::DynamicLinkLibrary => Kind::Executable,
        FileFormat::ElectronicPublication => Kind::Book,
        FileFormat::ExecutableAndLinkableFormat => Kind::Executable,
        FileFormat::ExtensibleBinaryMetaLanguage => Kind::Application,
        FileFormat::FreeLosslessAudioCodec => Kind::Audio,
        FileFormat::GoogleChromeExtension => Kind::Package,
        FileFormat::GraphicsInterchangeFormat => Kind::Image,
        FileFormat::Gzip => Kind::Compression,
        FileFormat::Iso9660 => Kind::Disk,
        FileFormat::JavaArchive => Kind::Package,
        FileFormat::JavaClass => Kind::Executable,
        FileFormat::EnterpriseApplicationArchive => Kind::Package,
        FileFormat::JointPhotographicExpertsGroup => Kind::Image,
        FileFormat::Lha => Kind::Archive,
        FileFormat::LinearExecutable => Kind::Executable,
        FileFormat::LuaBytecode => Kind::Executable,
        FileFormat::Lz4 => Kind::Compression,
        FileFormat::Lzip => Kind::Compression,
        FileFormat::Lzop => Kind::Compression,
        FileFormat::Matroska3dVideo => Kind::Video,
        FileFormat::MatroskaAudio => Kind::Audio,
        FileFormat::MatroskaSubtitles => Kind::Subtitle,
        FileFormat::MatroskaVideo => Kind::Video,
        FileFormat::MicrosoftCompiledHtmlHelp => Kind::Document,
        FileFormat::MicrosoftExcelSpreadsheet => Kind::Document,
        FileFormat::MicrosoftPowerPointPresentation => Kind::Document,
        FileFormat::MicrosoftProjectPlan => Kind::Document,
        FileFormat::MicrosoftPublisherDocument => Kind::Document,
        FileFormat::MicrosoftSoftwareInstaller => Kind::Package,
        FileFormat::MicrosoftVirtualHardDisk2 => Kind::Disk,
        FileFormat::MicrosoftVisioDrawing => Kind::Document,
        FileFormat::MicrosoftVisualStudioExtension => Kind::Package,
        FileFormat::MicrosoftWordDocument => Kind::Document,
        FileFormat::Mobipocket => Kind::Book,
        FileFormat::MpegAudioLayer3 => Kind::Audio,
        FileFormat::Mpeg4Part14 => Kind::Video,
        FileFormat::Mpeg4Part14Audio => Kind::Audio,
        FileFormat::Mpeg4Part14Subtitles => Kind::Subtitle,
        FileFormat::Mpeg4Part14Video => Kind::Video,
        FileFormat::MsDosExecutable => Kind::Executable,
        FileFormat::NewExecutable => Kind::Executable,
        FileFormat::OfficeOpenXmlDocument => Kind::Document,
        FileFormat::OfficeOpenXmlDrawing => Kind::Document,
        FileFormat::OfficeOpenXmlPresentation => Kind::Document,
        FileFormat::OfficeOpenXmlSpreadsheet => Kind::Document,
        FileFormat::OggMultiplexedMedia => Kind::Video,
        FileFormat::OpenDocumentGraphics => Kind::Document,
        FileFormat::OpenDocumentPresentation => Kind::Document,
        FileFormat::OpenDocumentSpreadsheet => Kind::Document,
        FileFormat::OpenDocumentText => Kind::Document,
        FileFormat::OptimizedDalvikExecutable => Kind::Executable,
        FileFormat::PcapDump => Kind::Application,
        FileFormat::PcapNextGenerationDump => Kind::Application,
        FileFormat::PortableDocumentFormat => Kind::Document,
        FileFormat::PortableExecutable => Kind::Executable,
        FileFormat::PortableNetworkGraphics => Kind::Image,
        FileFormat::Realaudio => Kind::Audio,
        FileFormat::Realmedia => Kind::Video,
        FileFormat::Realvideo => Kind::Video,
        FileFormat::RedHatPackageManager => Kind::Package,
        FileFormat::RoshalArchive => Kind::Archive,
        FileFormat::Sqlite3 => Kind::Database,
        FileFormat::TapeArchive => Kind::Archive,
        FileFormat::ThreeDimensionalManufacturingFormat => Kind::Model,
        FileFormat::UnixArchiver => Kind::Archive,
        FileFormat::UnixCompress => Kind::Compression,
        FileFormat::VirtualBoxVirtualDiskImage => Kind::Disk,
        FileFormat::WaveformAudio => Kind::Audio,
        FileFormat::WebApplicationArchive => Kind::Package,
        FileFormat::WebAssemblyBinary => Kind::Executable,
        FileFormat::Webm => Kind::Video,
        FileFormat::WindowsMediaAudio => Kind::Audio,
        FileFormat::WindowsMediaVideo => Kind::Video,
        FileFormat::WindowsShortcut => Kind::Application,
        FileFormat::Xap => Kind::Package,
        FileFormat::ExtensibleArchive => Kind::Archive,
        FileFormat::XpInstall => Kind::Package,
        FileFormat::Xz => Kind::Compression,
        FileFormat::Zip => Kind::Archive,
        FileFormat::Zoo => Kind::Archive,
        FileFormat::Zstandard => Kind::Compression,
        FileFormat::NintendoDsRom => Kind::Rom,
        FileFormat::GameBoyAdvanceRom => Kind::Rom,
        FileFormat::GameBoyColorRom => Kind::Rom,
        FileFormat::GameBoyRom => Kind::Rom,
        FileFormat::Nintendo64Rom => Kind::Rom,
        FileFormat::NintendoEntertainmentSystemRom => Kind::Rom,
        FileFormat::MicrosoftVirtualHardDisk => Kind::Disk,
        FileFormat::Snappy => Kind::Compression,
        FileFormat::LongRangeZip => Kind::Compression,
        FileFormat::JavaKeyStore => Kind::Certificate,
        FileFormat::MacOsAlias => Kind::Application,
        FileFormat::MaterialExchangeFormat => Kind::Video,
        FileFormat::SeqBox => Kind::Archive,
        FileFormat::Shapefile => Kind::Geospatial,
        FileFormat::SketchUp => Kind::Model,
        FileFormat::SmallWebFormat => Kind::Application,
        FileFormat::LempelZivFiniteStateEntropy => Kind::Compression,
        FileFormat::TagImageFileFormat => Kind::Image,
        FileFormat::WebP => Kind::Image,
    }
}

} // verus!
