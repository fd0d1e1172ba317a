//! The generic classifier: text or arbitrary binary data.

use vstd::prelude::*;
use crate::format::FileFormat;

verus! {

/// A byte that text may hold on its own: printable ASCII, tab, line feed,
/// form feed or carriage return.
pub open spec fn is_text_ascii(c: u8) -> bool {
    (0x20 <= c && c <= 0x7E) || c == 0x09 || c == 0x0A || c == 0x0C || c == 0x0D
}

/// A UTF-8 continuation byte.
pub open spec fn is_cont(c: u8) -> bool {
    0x80 <= c && c <= 0xBF
}

/// A byte of `b` at `j`, or zero past its end.
pub open spec fn byte_or_zero(b: Seq<u8>, j: int) -> u8 {
    if 0 <= j < b.len() { b[j] } else { 0 }
}

/// The width of the text character that starts at `i`, or zero where no
/// well-formed one does (overlong forms, surrogates and values past U+10FFFF
/// are not well formed).
pub open spec fn char_width(b: Seq<u8>, i: int) -> int {
    let c = byte_or_zero(b, i);
    let c1 = byte_or_zero(b, i + 1);
    let c2 = byte_or_zero(b, i + 2);
    let c3 = byte_or_zero(b, i + 3);
    if is_text_ascii(c) {
        1
    } else if 0xC2 <= c && c <= 0xDF && is_cont(c1) {
        2
    } else if 0xE0 <= c && c <= 0xEF && is_cont(c1) && is_cont(c2) && (c != 0xE0 || c1 >= 0xA0)
        && (c != 0xED || c1 <= 0x9F) {
        3
    } else if 0xF0 <= c && c <= 0xF4 && is_cont(c1) && is_cont(c2) && is_cont(c3) && (c != 0xF0
        || c1 >= 0x90) && (c != 0xF4 || c1 <= 0x8F) {
        4
    } else {
        0
    }
}

/// From `i` on, `b` is a sequence of text characters.
pub open spec fn text_from(b: Seq<u8>, i: int) -> bool
    decreases b.len() - i,
{
    if i < 0 || i >= b.len() {
        true
    } else {
        let w = char_width(b, i);
        w > 0 && text_from(b, i + w)
    }
}

/// `b` is text: every byte is printable or white-space ASCII or belongs to a
/// well-formed multi-byte UTF-8 character. A byte-order mark is one such
/// character.
pub open spec fn is_text(b: Seq<u8>) -> bool {
    text_from(b, 0)
}

/// What the generic classifier names `b`, with or without the text path.
pub open spec fn generic_of(b: Seq<u8>, plain_text: bool) -> FileFormat {
    if plain_text && is_text(b) {
        FileFormat::PlainText
    } else {
        FileFormat::ArbitraryBinaryData
    }
}

fn get_or_zero(b: &[u8], i: usize, k: usize) -> (r: u8)
    requires
        i < b@.len(),
    ensures
        r == byte_or_zero(b@, i + k),
{
    if k < b.len() - i {
        b[i + k]
    } else {
        0
    }
}

fn width_at(b: &[u8], i: usize) -> (r: usize)
    requires
        i < b@.len(),
    ensures
        r as int == char_width(b@, i as int),
{
    let c = b[i];
    let c1 = get_or_zero(b, i, 1);
    let c2 = get_or_zero(b, i, 2);
    let c3 = get_or_zero(b, i, 3);
    let cont1 = 0x80 <= c1 && c1 <= 0xBF;
    let cont2 = 0x80 <= c2 && c2 <= 0xBF;
    let cont3 = 0x80 <= c3 && c3 <= 0xBF;
    if (0x20 <= c && c <= 0x7E) || c == 0x09 || c == 0x0A || c == 0x0C || c == 0x0D {
        1
    } else if 0xC2 <= c && c <= 0xDF && cont1 {
        2
    } else if 0xE0 <= c && c <= 0xEF && cont1 && cont2 && (c != 0xE0 || c1 >= 0xA0) && (c != 0xED
        || c1 <= 0x9F) {
        3
    } else if 0xF0 <= c && c <= 0xF4 && cont1 && cont2 && cont3 && (c != 0xF0 || c1 >= 0x90) && (c
        != 0xF4 || c1 <= 0x8F) {
        4
    } else {
        0
    }
}

/// Whether the whole of `b` is text.
pub fn is_plain_text(b: &[u8]) -> (r: bool)
    ensures
        r == is_text(b@),
{
    let mut i: usize = 0;
    while i < b.len()
        invariant
            i <= b@.len(),
            text_from(b@, 0) == text_from(b@, i as int),
        decreases b@.len() - i,
    {
        let w = width_at(b, i);
        if w == 0 {
            return false;
        }
        if w > b.len() - i {
            return false;
        }
        i = i + w;
    }
    true
}

/// The generic classifier: `PlainText` where the text path is enabled and the
/// whole stream is text, `ArbitraryBinaryData` otherwise.
pub fn from_generic(b: &[u8], plain_text: bool) -> (r: FileFormat)
    ensures
        r == generic_of(b@, plain_text),
{
    if plain_text && is_plain_text(b) {
        FileFormat::PlainText
    } else {
        FileFormat::ArbitraryBinaryData
    }
}

} // verus!
