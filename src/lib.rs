//! Identification of the format of a byte stream from its content alone.
//!
//! Detection runs in two stages: a prefix signature match that yields a coarse
//! format, then, for container formats, a reader that parses just enough of the
//! container to name the precise format inside it. Whatever cannot be
//! identified falls through to a generic text/binary classifier.

mod asf;
mod bytes;
mod cfb;
mod detect;
mod ebml;
mod exe;
mod format;
mod mp4;
mod pdf;
mod rm;
mod signature;
mod text;
mod zip;

pub use asf::from_asf;
pub use cfb::from_cfb;
pub use detect::{detect, refine, resolve, PREFIX_LEN};
pub use ebml::from_ebml;
pub use exe::from_exe;
pub use format::{FileFormat, Kind};
pub use mp4::from_mp4;
pub use pdf::from_pdf;
pub use rm::from_rm;
pub use text::{from_generic, is_plain_text};
pub use zip::{entry_marker_of, from_zip, mimetype_marker_of};
