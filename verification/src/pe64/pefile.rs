//! The PE64 file loader: from on-disk bytes to a mapped image.
//!
//! A PE file on disk and its mapped form differ: on disk each section's
//! raw data lies at its file offset, mapped it lies at its virtual offset.
//! The loader validates the headers, allocates a zero-filled buffer of
//! `SizeOfImage` bytes, copies the headers to offset 0 and each section's
//! raw data to its virtual offset.  The whole operation is described by
//! one spec function over the file bytes, and the loader is proved to
//! return exactly its result.

use vstd::prelude::*;
use vstd::slice::slice_index_get;
use crate::bytes::le16;
use crate::bytes::le32;
use crate::image::IMAGE_DOS_HEADER_MAGIC;
use crate::image::IMAGE_NT_HEADERS_SIGNATURE;
use crate::image::IMAGE_NT_OPTIONAL_HDR64_MAGIC;
use super::peview::PeView;
use super::peview::valid_image;
use super::peview::spec_nt_off;
use super::peview::spec_opt_off;
use super::peview::spec_size_of_opt;
use super::peview::spec_sections_off;
use super::peview::spec_num_sections;
use super::peview::spec_num_dirs;
use super::peview::spec_dirs_off;
use super::peview::spec_size_of_image;
use super::peview::spec_section_off;
use super::peview::spec_section_va;
use super::peview::spec_section_raw_size;
use super::peview::spec_section_raw_ptr;

verus! {

/// Why a file was refused.
#[derive(Clone, Copy, PartialEq, Eq, Structural, Debug)]
pub enum PeError {
    /// The file ended before a required read.
    Io,
    /// A magic value did not match: DOS magic, PE signature, or
    /// optional-header magic.
    BadMagic,
    /// A sanity bound was violated: `e_lfanew` out of range, too many
    /// sections or directories, oversized headers, or invalid section
    /// addresses.
    Insanity,
}

/// The optional header's `SizeOfHeaders`.
pub open spec fn spec_size_of_headers(b: Seq<u8>) -> int {
    le32(b, spec_opt_off(b) + 60) as int
}

/// `VirtualSize` of section `i`.
pub open spec fn spec_section_vsize(b: Seq<u8>, i: int) -> u32 {
    le32(b, spec_section_off(b, i) + 8)
}

/// `n` zero bytes.
pub open spec fn zeros(n: nat) -> Seq<u8> {
    Seq::new(n, |i: int| 0u8)
}

/// `base` with `content` written over it starting at `at`.
pub open spec fn overlay(base: Seq<u8>, at: int, content: Seq<u8>) -> Seq<u8> {
    Seq::new(
        base.len(),
        |i: int|
            if at <= i < at + content.len() {
                content[i - at]
            } else {
                base[i]
            },
    )
}

/// Maps the sections from `i` on into `buf`: each section must start at
/// or after `SizeOfHeaders`, have a non-zero virtual size, and fit in the
/// image; a section with raw data has it copied from its file offset to
/// its virtual offset, and a file too short for that read fails.
pub open spec fn spec_map_sections(f: Seq<u8>, buf: Seq<u8>, i: int) -> Result<Seq<u8>, PeError>
    decreases spec_num_sections(f) - i,
{
    if i < 0 || i >= spec_num_sections(f) {
        Ok(buf)
    } else {
        let va = spec_section_va(f, i) as int;
        let vs = spec_section_vsize(f, i) as int;
        let rs = spec_section_raw_size(f, i) as int;
        let rp = spec_section_raw_ptr(f, i) as int;
        if va < spec_size_of_headers(f) || vs == 0 {
            Err(PeError::Insanity)
        } else if va + rs > buf.len() {
            Err(PeError::Insanity)
        } else if rp + rs > 0xFFFF_FFFF {
            Err(PeError::Insanity)
        } else if rp == 0 {
            spec_map_sections(f, buf, i + 1)
        } else if f.len() < rp + rs {
            Err(PeError::Io)
        } else {
            spec_map_sections(f, overlay(buf, va, f.subrange(rp, rp + rs)), i + 1)
        }
    }
}

/// What loading the file bytes `f` yields: the checks of the DOS and NT
/// headers in order, then the mapped image -- zeros of `SizeOfImage`
/// length, the headers at offset 0, each section's raw data at its
/// virtual offset.
pub open spec fn spec_load(f: Seq<u8>) -> Result<Seq<u8>, PeError> {
    if f.len() < 64 {
        Err(PeError::Io)
    } else if le16(f, 0) != IMAGE_DOS_HEADER_MAGIC {
        Err(PeError::BadMagic)
    } else if spec_nt_off(f) == 0 || spec_nt_off(f) > 0x200 {
        Err(PeError::Insanity)
    } else if f.len() < spec_nt_off(f) + 264 {
        Err(PeError::Io)
    } else if le32(f, spec_nt_off(f)) != IMAGE_NT_HEADERS_SIGNATURE || le16(f, spec_opt_off(f))
        != IMAGE_NT_OPTIONAL_HDR64_MAGIC {
        Err(PeError::BadMagic)
    } else if spec_size_of_headers(f) > 0x1000 || spec_num_dirs(f) > 16 || spec_size_of_opt(f)
        < 240 || spec_num_sections(f) > 100 {
        Err(PeError::Insanity)
    } else if spec_sections_off(f) + 40 * spec_num_sections(f) > spec_size_of_headers(f) {
        Err(PeError::Insanity)
    } else if spec_size_of_headers(f) > spec_size_of_image(f) {
        Err(PeError::Insanity)
    } else if f.len() < spec_size_of_headers(f) {
        Err(PeError::Io)
    } else {
        spec_map_sections(
            f,
            overlay(
                zeros(spec_size_of_image(f) as nat),
                0,
                f.subrange(0, spec_size_of_headers(f)),
            ),
            0,
        )
    }
}

proof fn lemma_map_sections_ok(f: Seq<u8>, buf: Seq<u8>, i: int)
    requires
        0 <= i <= spec_num_sections(f),
        spec_map_sections(f, buf, i) is Ok,
    ensures
        ({
            let m = spec_map_sections(f, buf, i)->Ok_0;
            &&& m.len() == buf.len()
            &&& forall|j: int| 0 <= j < spec_size_of_headers(f) && j < buf.len() ==> m[j] == buf[j]
            &&& forall|k: int|
                i <= k < spec_num_sections(f) ==> #[trigger] spec_section_va(f, k)
                    + spec_section_raw_size(f, k) <= buf.len() && spec_section_va(f, k)
                    >= spec_size_of_headers(f) && spec_section_vsize(f, k) > 0
            &&& forall|k: int|
                i <= k < spec_num_sections(f) ==> #[trigger] spec_section_raw_ptr(f, k)
                    + spec_section_raw_size(f, k) <= 0xFFFF_FFFF
        }),
    decreases spec_num_sections(f) - i,
{
    if i < spec_num_sections(f) {
        let va = spec_section_va(f, i) as int;
        let rs = spec_section_raw_size(f, i) as int;
        let rp = spec_section_raw_ptr(f, i) as int;
        if rp == 0 {
            lemma_map_sections_ok(f, buf, i + 1);
        } else {
            lemma_map_sections_ok(f, overlay(buf, va, f.subrange(rp, rp + rs)), i + 1);
        }
    }
}

#[verifier::rlimit(100)]
proof fn lemma_load_ok_valid(f: Seq<u8>)
    requires
        spec_load(f) is Ok,
    ensures
        valid_image(spec_load(f)->Ok_0),
{
    let hdrs = spec_size_of_headers(f);
    let img = spec_size_of_image(f);
    let buf0 = overlay(zeros(img as nat), 0, f.subrange(0, hdrs));
    lemma_map_sections_ok(f, buf0, 0);
    let m = spec_load(f)->Ok_0;
    assert(m == spec_map_sections(f, buf0, 0)->Ok_0);
    assert(hdrs >= spec_sections_off(f)) by {
        assert(40 * spec_num_sections(f) >= 0);
    }
    assert(spec_sections_off(f) >= spec_nt_off(f) + 264);
    assert forall|j: int| 0 <= j < hdrs implies m[j] == f[j] by {
        assert(m[j] == buf0[j]);
        assert(buf0[j] == f.subrange(0, hdrs)[j]);
    }
    assert(spec_nt_off(m) == spec_nt_off(f));
    assert(spec_opt_off(m) == spec_opt_off(f));
    assert(spec_size_of_opt(m) == spec_size_of_opt(f));
    assert(spec_sections_off(m) == spec_sections_off(f));
    assert(spec_num_sections(m) == spec_num_sections(f));
    assert(spec_num_dirs(m) == spec_num_dirs(f));
    assert(spec_size_of_image(m) == spec_size_of_image(f));
    assert(le16(m, 0) == le16(f, 0));
    assert(le32(m, spec_nt_off(m)) == le32(f, spec_nt_off(f)));
    assert(le16(m, spec_opt_off(m)) == le16(f, spec_opt_off(f)));
    assert(m.len() == img);
    assert(spec_nt_off(f) + 264 <= spec_sections_off(f));
    assert(hdrs <= img);
    assert(0x40 <= m.len() <= 0xFFFF_FFFF);
    assert(spec_nt_off(m) + 264 <= m.len());
    assert(spec_size_of_opt(m) >= 240);
    assert(spec_sections_off(m) + 40 * spec_num_sections(m) <= m.len());
    assert(spec_dirs_off(m) + 8 * spec_num_dirs(m) <= m.len()) by {
        assert(spec_num_dirs(f) <= 16);
        assert(spec_dirs_off(f) == spec_opt_off(f) + 112);
        assert(spec_opt_off(f) + 112 + 128 <= spec_opt_off(f) + spec_size_of_opt(f));
    }
    assert(spec_size_of_image(m) <= m.len());
    assert forall|k: int| 0 <= k < spec_num_sections(m) implies #[trigger] spec_section_va(m, k)
        + spec_section_raw_size(m, k) <= 0xFFFF_FFFF by {
        assert(spec_section_off(f, k) + 40 <= spec_sections_off(f) + 40 * spec_num_sections(f));
        assert(spec_section_va(m, k) == spec_section_va(f, k));
        assert(spec_section_raw_size(m, k) == spec_section_raw_size(f, k));
        assert(spec_section_va(f, k) + spec_section_raw_size(f, k) <= buf0.len());
    }
    assert forall|k: int| 0 <= k < spec_num_sections(m) implies #[trigger] spec_section_raw_ptr(
        m,
        k,
    ) + spec_section_raw_size(m, k) <= 0xFFFF_FFFF by {
        assert(spec_section_off(f, k) + 40 <= spec_sections_off(f) + 40 * spec_num_sections(f));
        assert(spec_section_raw_ptr(m, k) == spec_section_raw_ptr(f, k));
        assert(spec_section_raw_size(m, k) == spec_section_raw_size(f, k));
    }
}

/// Copies `rs` bytes of `f` at `rp` into `buf` at `va`.
fn copy_into(buf: &mut Vec<u8>, f: &[u8], va: u32, rp: u32, rs: u32)
    requires
        va + rs <= old(buf)@.len(),
        rp + rs <= f@.len(),
        old(buf)@.len() <= 0xFFFF_FFFF,
    ensures
        final(buf)@ == overlay(old(buf)@, va as int, f@.subrange(rp as int, rp + rs)),
{
    let ghost buf_snap = buf@;
    let n: usize = f.len();
    let rs_us = rs as usize;
    let mut c: usize = 0;
    while c < rs_us
        invariant
            0 <= c <= rs_us,
            n == f@.len(),
            rs_us == rs,
            rp + rs <= n,
            va + rs <= buf@.len(),
            buf@.len() <= 0xFFFF_FFFF,
            buf@.len() == buf_snap.len(),
            buf@ =~= overlay(buf_snap, va as int, f@.subrange(rp as int, rp + c)),
        decreases rs_us - c,
    {
        let byte = *slice_index_get(f, (rp as usize) + c);
        buf.set((va as usize) + c, byte);
        proof {
            assert(buf@ =~= overlay(buf_snap, va as int, f@.subrange(rp as int, rp + c + 1)));
        }
        c = c + 1;
    }
    proof {
        assert(buf@ =~= overlay(buf_snap, va as int, f@.subrange(rp as int, rp + rs)));
    }
}

/// An owned, mapped PE64 image, produced from a file's bytes.
pub struct PeFile {
    buf: Vec<u8>,
}

impl View for PeFile {
    type V = Seq<u8>;

    closed spec fn view(&self) -> Seq<u8> {
        self.buf@
    }
}

impl PeFile {
    /// The loader only ever builds well-formed mapped images.
    #[verifier::type_invariant]
    closed spec fn wf(self) -> bool {
        valid_image(self.buf@)
    }

    /// Maps the bytes of a PE64 file into an owned image buffer.
    ///
    /// The headers are validated first: `Io` when the file ends before a
    /// required read, `BadMagic` when a magic value does not match,
    /// `Insanity` when a sanity bound is violated.  On success the result
    /// is the correctly mapped binary, ready for a view.
    #[verifier::rlimit(100)]
    pub fn load(file_data: &[u8]) -> (r: Result<PeFile, PeError>)
        ensures
            r matches Ok(pe) ==> spec_load(file_data@) == Ok::<Seq<u8>, PeError>(pe@),
            r matches Err(e) ==> spec_load(file_data@) == Err::<Seq<u8>, PeError>(e),
    {
        let f = file_data;
        let n: usize = f.len();
        if n < 64 {
            return Err(PeError::Io);
        }
        if crate::bytes::read_u16(f, 0) != IMAGE_DOS_HEADER_MAGIC {
            return Err(PeError::BadMagic);
        }
        let e_lfanew = crate::bytes::read_u32(f, 60) as u64;
        if e_lfanew == 0 || e_lfanew > 0x200 {
            return Err(PeError::Insanity);
        }
        if (n as u64) < e_lfanew + 264 {
            return Err(PeError::Io);
        }
        let nt = e_lfanew as usize;
        if crate::bytes::read_u32(f, nt) != IMAGE_NT_HEADERS_SIGNATURE || crate::bytes::read_u16(
            f,
            nt + 24,
        ) != IMAGE_NT_OPTIONAL_HDR64_MAGIC {
            return Err(PeError::BadMagic);
        }
        let opt = nt + 24;
        let size_of_headers = crate::bytes::read_u32(f, opt + 60) as u64;
        let num_dirs = crate::bytes::read_u32(f, opt + 108);
        let opt_size = crate::bytes::read_u16(f, nt + 20) as u64;
        let num_sections = crate::bytes::read_u16(f, nt + 6) as u64;
        if size_of_headers > 0x1000 || num_dirs > 16 || opt_size < 240 || num_sections > 100 {
            return Err(PeError::Insanity);
        }
        let sec_begin = e_lfanew + 24 + opt_size;
        if sec_begin + 40 * num_sections > size_of_headers {
            return Err(PeError::Insanity);
        }
        let size_of_image = crate::bytes::read_u32(f, opt + 56) as u64;
        if size_of_headers > size_of_image {
            return Err(PeError::Insanity);
        }
        if (n as u64) < size_of_headers {
            return Err(PeError::Io);
        }
        let mut buf: Vec<u8> = vec![0u8; size_of_image as usize];
        proof {
            assert(buf@ =~= zeros(spec_size_of_image(f@) as nat));
        }
        let hdrs = size_of_headers as usize;
        let mut k: usize = 0;
        while k < hdrs
            invariant
                0 <= k <= hdrs,
                n == f@.len(),
                hdrs <= n,
                buf@.len() == spec_size_of_image(f@),
                hdrs == spec_size_of_headers(f@),
                hdrs <= buf@.len(),
                forall|j: int| 0 <= j < k ==> buf@[j] == f@[j],
                forall|j: int| k <= j < buf@.len() ==> buf@[j] == 0,
            decreases hdrs - k,
        {
            let byte = *slice_index_get(f, k);
            buf.set(k, byte);
            k = k + 1;
        }
        let ghost buf0 = overlay(
            zeros(spec_size_of_image(f@) as nat),
            0,
            f@.subrange(0, spec_size_of_headers(f@)),
        );
        proof {
            assert(buf@ =~= buf0);
        }
        match Self::map_sections(f, &mut buf, sec_begin, num_sections, size_of_headers) {
            Ok(()) => {}
            Err(e) => {
                return Err(e);
            }
        }
        proof {
            assert(spec_load(f@) == Ok::<Seq<u8>, PeError>(buf@));
            lemma_load_ok_valid(f@);
        }
        Ok(PeFile { buf })
    }

    /// Copies every section's raw data from its file offset to its
    /// virtual offset, after checking its addresses.
    fn map_sections(
        f: &[u8],
        buf: &mut Vec<u8>,
        sec_begin: u64,
        num_sections: u64,
        size_of_headers: u64,
    ) -> (r: Result<(), PeError>)
        requires
            num_sections == spec_num_sections(f@),
            sec_begin == spec_sections_off(f@),
            sec_begin + 40 * num_sections <= size_of_headers,
            size_of_headers == spec_size_of_headers(f@),
            size_of_headers <= 0x1000,
            size_of_headers <= f@.len(),
            size_of_headers <= old(buf)@.len(),
            old(buf)@.len() <= 0xFFFF_FFFF,
        ensures
            r is Ok ==> spec_map_sections(f@, old(buf)@, 0) == Ok::<Seq<u8>, PeError>(
                final(buf)@,
            ),
            r matches Err(e) ==> spec_map_sections(f@, old(buf)@, 0) == Err::<Seq<u8>, PeError>(e)
                && final(buf)@.len() == old(buf)@.len(),
    {
        let n: usize = f.len();
        let img_len: usize = buf.len();
        let mut i: u64 = 0;
        while i < num_sections
            invariant
                0 <= i <= num_sections,
                n == f@.len(),
                img_len == buf@.len(),
                img_len == old(buf)@.len(),
                num_sections == spec_num_sections(f@),
                sec_begin == spec_sections_off(f@),
                sec_begin + 40 * num_sections <= size_of_headers,
                size_of_headers == spec_size_of_headers(f@),
                size_of_headers <= 0x1000,
                size_of_headers <= n,
                size_of_headers <= img_len,
                img_len <= 0xFFFF_FFFF,
                spec_map_sections(f@, old(buf)@, 0) == spec_map_sections(f@, buf@, i as int),
            decreases num_sections - i,
        {
            let so = (sec_begin + 40 * i) as usize;
            let vs = crate::bytes::read_u32(f, so + 8);
            let va = crate::bytes::read_u32(f, so + 12);
            let rs = crate::bytes::read_u32(f, so + 16);
            let rp = crate::bytes::read_u32(f, so + 20);
            proof {
                assert(vs == spec_section_vsize(f@, i as int));
                assert(va == spec_section_va(f@, i as int));
                assert(rs == spec_section_raw_size(f@, i as int));
                assert(rp == spec_section_raw_ptr(f@, i as int));
            }
            if (va as u64) < size_of_headers || vs == 0 {
                return Err(PeError::Insanity);
            }
            if va as u64 + rs as u64 > img_len as u64 {
                return Err(PeError::Insanity);
            }
            if rp as u64 + rs as u64 > 0xFFFF_FFFF {
                return Err(PeError::Insanity);
            }
            if rp != 0 {
                if (n as u64) < rp as u64 + rs as u64 {
                    return Err(PeError::Io);
                }
                copy_into(buf, f, va, rp, rs);
            }
            i = i + 1;
        }
        Ok(())
    }

    /// A read-only view into the mapped image.
    pub fn view_of<'s>(&'s self) -> (r: PeView<'s>)
        ensures
            r@ == self@,
    {
        proof {
            use_type_invariant(self);
        }
        match PeView::new(self.buf.as_slice()) {
            Some(v) => v,
            None => unreached(),
        }
    }
}

} // verus!
