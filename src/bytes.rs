//! Bounded, never-failing reads of little- and big-endian integers and byte
//! patterns out of an in-memory stream.

use vstd::prelude::*;

verus! {

/// `pat` occurs in `data` starting at `off`.
pub open spec fn occurs_at(data: Seq<u8>, off: int, pat: Seq<u8>) -> bool {
    &&& 0 <= off
    &&& off + pat.len() <= data.len()
    &&& forall|i: int| 0 <= i < pat.len() ==> #[trigger] data[off + i] == pat[i]
}

/// Little-endian value of the two bytes at `off`.
pub open spec fn le16(data: Seq<u8>, off: int) -> int {
    data[off] as int + 256 * data[off + 1] as int
}

/// Little-endian value of the four bytes at `off`.
pub open spec fn le32(data: Seq<u8>, off: int) -> int {
    le16(data, off) + 65536 * le16(data, off + 2)
}

/// Big-endian value of the four bytes at `off`.
pub open spec fn be32(data: Seq<u8>, off: int) -> int {
    data[off] as int * 16777216 + data[off + 1] as int * 65536 + data[off + 2] as int * 256
        + data[off + 3] as int
}

/// Whether `pat` occurs in `data` at `off`; false where the pattern would run
/// past the end of the data.
pub fn has_at(data: &[u8], off: usize, pat: &[u8]) -> (r: bool)
    ensures
        r == occurs_at(data@, off as int, pat@),
{
    if off > data.len() || pat.len() > data.len() - off {
        return false;
    }
    let mut i: usize = 0;
    while i < pat.len()
        invariant
            i <= pat.len(),
            off + pat.len() <= data.len(),
            forall|j: int| 0 <= j < i ==> #[trigger] data@[off + j] == pat@[j],
        decreases pat.len() - i,
    {
        if data[off + i] != pat[i] {
            return false;
        }
        i += 1;
    }
    true
}

/// The little-endian `u16` at `off`, or `None` where it runs past the end.
pub fn u16_le(data: &[u8], off: usize) -> (r: Option<u16>)
    ensures
        r is Some <==> off as int + 2 <= data@.len(),
        r matches Some(v) ==> v as int == le16(data@, off as int),
{
    if off > data.len() || data.len() - off < 2 {
        return None;
    }
    Some(data[off] as u16 + 256 * data[off + 1] as u16)
}

/// The little-endian `u32` at `off`, or `None` where it runs past the end.
pub fn u32_le(data: &[u8], off: usize) -> (r: Option<u32>)
    ensures
        r is Some <==> off as int + 4 <= data@.len(),
        r matches Some(v) ==> v as int == le32(data@, off as int),
{
    if off > data.len() || data.len() - off < 4 {
        return None;
    }
    let lo = data[off] as u32 + 256 * data[off + 1] as u32;
    let hi = data[off + 2] as u32 + 256 * data[off + 3] as u32;
    Some(lo + 65536 * hi)
}

/// The big-endian `u32` at `off`, or `None` where it runs past the end.
pub fn u32_be(data: &[u8], off: usize) -> (r: Option<u32>)
    ensures
        r is Some <==> off as int + 4 <= data@.len(),
        r matches Some(v) ==> v as int == be32(data@, off as int),
{
    if off > data.len() || data.len() - off < 4 {
        return None;
    }
    Some(
        data[off] as u32 * 16777216 + data[off + 1] as u32 * 65536 + data[off + 2] as u32 * 256
            + data[off + 3] as u32,
    )
}

} // verus!

verus! {

/// `pat` occurs somewhere in `data` wholly before `end`.
pub open spec fn occurs_before(data: Seq<u8>, pat: Seq<u8>, end: int) -> bool {
    exists|i: int| 0 <= i && i + pat.len() <= end && #[trigger] occurs_at(data, i, pat)
}

/// Whether `pat` occurs in `data` wholly within its first `end` bytes.
pub fn find_before(data: &[u8], pat: &[u8], end: usize) -> (r: bool)
    requires
        end <= data@.len(),
    ensures
        r == occurs_before(data@, pat@, end as int),
{
    if pat.len() > end {
        return false;
    }
    let last = end - pat.len();
    let mut i: usize = 0;
    while i < last
        invariant
            last + pat@.len() == end,
            end <= data@.len(),
            forall|j: int| 0 <= j < i ==> !#[trigger] occurs_at(data@, j, pat@),
        decreases last - i,
    {
        if has_at(data, i, pat) {
            return true;
        }
        i += 1;
    }
    if has_at(data, last, pat) {
        return true;
    }
    assert forall|j: int| 0 <= j && j + pat@.len() <= end implies !#[trigger] occurs_at(
        data@,
        j,
        pat@,
    ) by {
        assert(j <= last);
    }
    false
}

} // verus!
