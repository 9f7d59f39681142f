//! Little-endian integer readers and NUL-terminated byte strings.
//!
//! Every multi-byte integer in a PE image is little-endian.  The spec
//! functions here give the mathematical meaning of the raw bytes; the
//! executable readers are proved to return exactly those values.

use vstd::prelude::*;
use vstd::slice::slice_index_get;
use vstd::slice::slice_subrange;

verus! {

/// The little-endian 16-bit word formed by `b[off]` and `b[off + 1]`.
pub open spec fn le16(b: Seq<u8>, off: int) -> u16
    recommends
        0 <= off,
        off + 2 <= b.len(),
{
    (b[off] + b[off + 1] * 0x100) as u16
}

/// The little-endian 32-bit word at `off`.
pub open spec fn le32(b: Seq<u8>, off: int) -> u32
    recommends
        0 <= off,
        off + 4 <= b.len(),
{
    (le16(b, off) + le16(b, off + 2) * 0x1_0000) as u32
}

/// The little-endian 64-bit word at `off`.
pub open spec fn le64(b: Seq<u8>, off: int) -> u64
    recommends
        0 <= off,
        off + 8 <= b.len(),
{
    (le32(b, off) + le32(b, off + 4) * 0x1_0000_0000) as u64
}

/// Reads the little-endian `u16` at `off`.
pub fn read_u16(b: &[u8], off: usize) -> (r: u16)
    requires
        off + 2 <= b@.len(),
    ensures
        r == le16(b@, off as int),
{
    let n: usize = b.len();
    let b0: u16 = *slice_index_get(b, off) as u16;
    let b1: u16 = *slice_index_get(b, off + 1) as u16;
    b0 + b1 * 0x100
}

/// Reads the little-endian `u32` at `off`.
pub fn read_u32(b: &[u8], off: usize) -> (r: u32)
    requires
        off + 4 <= b@.len(),
    ensures
        r == le32(b@, off as int),
{
    let n: usize = b.len();
    let w0: u32 = read_u16(b, off) as u32;
    let w1: u32 = read_u16(b, off + 2) as u32;
    w0 + w1 * 0x1_0000
}

/// Reads the little-endian `u64` at `off`.
pub fn read_u64(b: &[u8], off: usize) -> (r: u64)
    requires
        off + 8 <= b@.len(),
    ensures
        r == le64(b@, off as int),
{
    let n: usize = b.len();
    let d0: u64 = read_u32(b, off) as u64;
    let d1: u64 = read_u32(b, off + 4) as u64;
    d0 + d1 * 0x1_0000_0000
}

/// Holds iff a NUL byte occurs at or after `off` (and within the buffer).
pub open spec fn has_nul(b: Seq<u8>, off: int) -> bool
    decreases b.len() - off,
{
    if off < 0 || off >= b.len() {
        false
    } else if b[off] == 0 {
        true
    } else {
        has_nul(b, off + 1)
    }
}

/// Position of the first NUL byte at or after `off`.
pub open spec fn nul_pos(b: Seq<u8>, off: int) -> int
    recommends
        has_nul(b, off),
    decreases b.len() - off,
{
    if off < 0 || off >= b.len() {
        off
    } else if b[off] == 0 {
        off
    } else {
        nul_pos(b, off + 1)
    }
}

/// The NUL-terminated byte string starting at `off`, without its terminator.
pub open spec fn cstr_at(b: Seq<u8>, off: int) -> Seq<u8>
    recommends
        has_nul(b, off),
{
    b.subrange(off, nul_pos(b, off))
}

/// The first NUL at or after `off` is within bounds, is a NUL, and nothing
/// before it (from `off` on) is a NUL.
pub proof fn lemma_nul_pos(b: Seq<u8>, off: int)
    requires
        has_nul(b, off),
    ensures
        off <= nul_pos(b, off) < b.len(),
        b[nul_pos(b, off)] == 0,
        forall|k: int| off <= k < nul_pos(b, off) ==> b[k] != 0,
    decreases b.len() - off,
{
    if b[off] != 0 {
        lemma_nul_pos(b, off + 1);
    }
}

/// Scans from `off` for the first NUL byte and returns the bytes before it.
pub fn read_cstr<'a>(b: &'a [u8], off: usize) -> (r: &'a [u8])
    requires
        off <= b@.len(),
        has_nul(b@, off as int),
    ensures
        r@ == cstr_at(b@, off as int),
{
    proof {
        lemma_nul_pos(b@, off as int);
    }
    let ghost np: int = nul_pos(b@, off as int);
    let n: usize = b.len();
    let mut i: usize = off;
    loop
        invariant
            off <= i <= np < n,
            n == b@.len(),
            has_nul(b@, off as int),
            np == nul_pos(b@, off as int),
            b@[np] == 0,
            forall|k: int| off <= k < np ==> b@[k] != 0,
        ensures
            off <= i <= np,
            b@[i as int] == 0,
        decreases np - i,
    {
        if *slice_index_get(b, i) == 0 {
            break;
        }
        i = i + 1;
    }
    assert(i == np);
    slice_subrange(b, off, i)
}

/// Compares two byte slices for equality, element by element.
pub fn bytes_eq(a: &[u8], b: &[u8]) -> (r: bool)
    ensures
        r <==> a@ == b@,
{
    if a.len() != b.len() {
        return false;
    }
    let n: usize = a.len();
    let mut i: usize = 0;
    while i < n
        invariant
            0 <= i <= n,
            n == a@.len(),
            n == b@.len(),
            forall|k: int| 0 <= k < i ==> a@[k] == b@[k],
        decreases n - i,
    {
        if *slice_index_get(a, i) != *slice_index_get(b, i) {
            return false;
        }
        i = i + 1;
    }
    proof {
        assert(a@ =~= b@);
    }
    true
}

/// Compares two 16-bit word slices for equality, element by element.
pub fn words_eq(a: &[u16], b: &[u16]) -> (r: bool)
    ensures
        r <==> a@ == b@,
{
    if a.len() != b.len() {
        return false;
    }
    let n: usize = a.len();
    let mut i: usize = 0;
    while i < n
        invariant
            0 <= i <= n,
            n == a@.len(),
            n == b@.len(),
            forall|k: int| 0 <= k < i ==> a@[k] == b@[k],
        decreases n - i,
    {
        if *slice_index_get(a, i) != *slice_index_get(b, i) {
            return false;
        }
        i = i + 1;
    }
    proof {
        assert(a@ =~= b@);
    }
    true
}

} // verus!
