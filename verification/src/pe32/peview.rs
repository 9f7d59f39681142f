//! The mapped view over a 32-bit PE image.
//!
//! A `PeView` borrows a byte buffer holding the *mapped* form of an image:
//! every section lies at its virtual offset, and the buffer is at least
//! `SizeOfImage` bytes long.  Construction validates the headers once; all
//! readers are then proved to stay inside the buffer.

use vstd::prelude::*;
use vstd::slice::slice_subrange;
use crate::bytes::le16;
use crate::bytes::le32;
use crate::bytes::le64;
use crate::bytes::has_nul;
use crate::bytes::cstr_at;
use crate::bytes::read_cstr;
use crate::image::ImageDosHeader;
use crate::image::ImageFileHeader;
use crate::image::ImageDataDirectory;
use crate::image::ImageSectionHeader;
use crate::image::dos_header_matches;
use crate::image::spec_file_header;
use crate::image::spec_nt_headers32;
use crate::image::spec_optional_header32;
use crate::image::spec_data_directory;
use crate::image::section_header_matches;
use crate::image::read_dos_header;
use crate::image::read_nt_headers32;
use crate::image::read_data_directory;
use crate::image::read_section_header;
use super::image::ImageNtHeaders;
use super::image::ImageOptionalHeader;
use super::image::Rva;
use super::image::Va;
use super::image::FileOffset;
use super::image::BADRVA;
use super::image::BADVA;

verus! {

/// Offset of the NT headers: the DOS header's `e_lfanew`.
pub open spec fn spec_nt_off(b: Seq<u8>) -> int {
    le32(b, 60) as int
}

/// Offset of the optional header.
pub open spec fn spec_opt_off(b: Seq<u8>) -> int {
    spec_nt_off(b) + 24
}

/// The file header's `SizeOfOptionalHeader`.
pub open spec fn spec_size_of_opt(b: Seq<u8>) -> int {
    le16(b, spec_nt_off(b) + 20) as int
}

/// Offset of the section-header table, right after the optional header.
pub open spec fn spec_sections_off(b: Seq<u8>) -> int {
    spec_opt_off(b) + spec_size_of_opt(b)
}

/// The file header's `NumberOfSections`.
pub open spec fn spec_num_sections(b: Seq<u8>) -> int {
    le16(b, spec_nt_off(b) + 6) as int
}

/// The optional header's `NumberOfRvaAndSizes`.
pub open spec fn spec_num_dirs(b: Seq<u8>) -> int {
    le32(b, spec_opt_off(b) + 92) as int
}

/// Offset of the data-directory array.
pub open spec fn spec_dirs_off(b: Seq<u8>) -> int {
    spec_opt_off(b) + 96
}

/// The optional header's `SizeOfImage`.
pub open spec fn spec_size_of_image(b: Seq<u8>) -> int {
    le32(b, spec_opt_off(b) + 56) as int
}

/// The optional header's `ImageBase`.
pub open spec fn spec_image_base(b: Seq<u8>) -> u32 {
    le32(b, spec_opt_off(b) + 28)
}

/// Offset of section header `i`.
pub open spec fn spec_section_off(b: Seq<u8>, i: int) -> int {
    spec_sections_off(b) + 40 * i
}

/// `VirtualAddress` of section `i`.
pub open spec fn spec_section_va(b: Seq<u8>, i: int) -> u32 {
    le32(b, spec_section_off(b, i) + 12)
}

/// `SizeOfRawData` of section `i`.
pub open spec fn spec_section_raw_size(b: Seq<u8>, i: int) -> u32 {
    le32(b, spec_section_off(b, i) + 16)
}

/// `PointerToRawData` of section `i`.
pub open spec fn spec_section_raw_ptr(b: Seq<u8>, i: int) -> u32 {
    le32(b, spec_section_off(b, i) + 20)
}

/// A buffer is a well-formed mapped 32-bit PE image: the DOS header lies at
/// offset 0 with its magic, the NT headers lie at `e_lfanew` with the PE
/// signature and the 32-bit optional-header magic, the section-header and
/// data-directory arrays lie within the buffer, `SizeOfImage` does not
/// exceed the buffer, and no section's address arithmetic can leave the
/// 32-bit range.
pub open spec fn valid_image(b: Seq<u8>) -> bool {
    &&& 0x40 <= b.len() <= 0xFFFF_FFFF
    &&& le16(b, 0) == crate::image::IMAGE_DOS_HEADER_MAGIC
    &&& 0 < spec_nt_off(b)
    &&& spec_nt_off(b) + 248 <= b.len()
    &&& le32(b, spec_nt_off(b)) == crate::image::IMAGE_NT_HEADERS_SIGNATURE
    &&& le16(b, spec_opt_off(b)) == crate::image::IMAGE_NT_OPTIONAL_HDR32_MAGIC
    &&& spec_size_of_opt(b) >= 224
    &&& spec_sections_off(b) + 40 * spec_num_sections(b) <= b.len()
    &&& spec_dirs_off(b) + 8 * spec_num_dirs(b) <= b.len()
    &&& spec_size_of_image(b) <= b.len()
    &&& forall|i: int|
        0 <= i < spec_num_sections(b) ==> #[trigger] spec_section_va(b, i) + spec_section_raw_size(
            b,
            i,
        ) <= 0xFFFF_FFFF
    &&& forall|i: int|
        0 <= i < spec_num_sections(b) ==> #[trigger] spec_section_raw_ptr(b, i)
            + spec_section_raw_size(b, i) <= 0xFFFF_FFFF
}

/// A read-only view of a mapped 32-bit PE image.  It borrows the buffer and
/// caches only the image base read from the optional header.
pub struct PeView<'a> {
    image: &'a [u8],
    vbase: Va,
}

impl<'a> View for PeView<'a> {
    type V = Seq<u8>;

    closed spec fn view(&self) -> Seq<u8> {
        self.image@
    }
}

impl<'a> PeView<'a> {
    /// The buffer is a well-formed mapped image and the cached base is the
    /// one the headers declare.
    #[verifier::type_invariant]
    pub closed spec fn wf(self) -> bool {
        &&& valid_image(self.image@)
        &&& self.vbase == spec_image_base(self.image@)
    }

    /// Wraps a buffer holding a mapped PE32 image, after validating the
    /// headers.  Returns nothing when the buffer is not a well-formed
    /// mapped image.
    pub fn new(image: &'a [u8]) -> (r: Option<PeView<'a>>)
        ensures
            r is Some <==> valid_image(image@),
            r matches Some(v) ==> v@ == image@,
    {
        let n: usize = image.len();
        if n < 0x40 || n as u64 > 0xFFFF_FFFF {
            return None;
        }
        if crate::bytes::read_u16(image, 0) != crate::image::IMAGE_DOS_HEADER_MAGIC {
            return None;
        }
        let nt = crate::bytes::read_u32(image, 60) as u64;
        if nt == 0 || nt + 248 > n as u64 {
            return None;
        }
        let nt_us = nt as usize;
        if crate::bytes::read_u32(image, nt_us) != crate::image::IMAGE_NT_HEADERS_SIGNATURE {
            return None;
        }
        if crate::bytes::read_u16(image, nt_us + 24) != crate::image::IMAGE_NT_OPTIONAL_HDR32_MAGIC {
            return None;
        }
        let opt_size = crate::bytes::read_u16(image, nt_us + 20) as u64;
        if opt_size < 224 {
            return None;
        }
        let num_sections = crate::bytes::read_u16(image, nt_us + 6) as u64;
        let sections_off = nt + 24 + opt_size;
        if sections_off + 40 * num_sections > n as u64 {
            return None;
        }
        let num_dirs = crate::bytes::read_u32(image, nt_us + 24 + 96 - 4) as u64;
        if nt + 24 + 96 + 8 * num_dirs > n as u64 {
            return None;
        }
        let size_of_image = crate::bytes::read_u32(image, nt_us + 24 + 56) as u64;
        if size_of_image > n as u64 {
            return None;
        }
        let mut i: u64 = 0;
        while i < num_sections
            invariant
                0 <= i <= num_sections,
                n == image@.len(),
                0x40 <= n <= 0xFFFF_FFFF,
                nt == spec_nt_off(image@),
                nt + 248 <= n,
                opt_size == spec_size_of_opt(image@),
                opt_size >= 224,
                num_sections == spec_num_sections(image@),
                sections_off == spec_sections_off(image@),
                sections_off + 40 * num_sections <= n,
                forall|j: int|
                    0 <= j < i ==> #[trigger] spec_section_va(image@, j) + spec_section_raw_size(
                        image@,
                        j,
                    ) <= 0xFFFF_FFFF,
                forall|j: int|
                    0 <= j < i ==> #[trigger] spec_section_raw_ptr(image@, j)
                        + spec_section_raw_size(image@, j) <= 0xFFFF_FFFF,
            decreases num_sections - i,
        {
            let so = (sections_off + 40 * i) as usize;
            let va = crate::bytes::read_u32(image, so + 12);
            let rs = crate::bytes::read_u32(image, so + 16);
            let rp = crate::bytes::read_u32(image, so + 20);
            proof {
                assert(va == spec_section_va(image@, i as int));
                assert(rs == spec_section_raw_size(image@, i as int));
                assert(rp == spec_section_raw_ptr(image@, i as int));
            }
            if va as u64 + rs as u64 > 0xFFFF_FFFF || rp as u64 + rs as u64 > 0xFFFF_FFFF {
                return None;
            }
            i = i + 1;
        }
        let vbase = crate::bytes::read_u32(image, nt_us + 24 + 28);
        Some(PeView { image, vbase })
    }

    /// The mapped image as a byte slice.
    pub fn image(&self) -> (r: &'a [u8])
        ensures
            r@ == self@,
    {
        self.image
    }

    /// The virtual base address cached from the optional header.
    pub fn virtual_base(&self) -> (r: Va)
        ensures
            r == spec_image_base(self@),
    {
        proof {
            use_type_invariant(self);
        }
        self.vbase
    }

    /// The DOS header at offset 0.
    pub fn dos_header(&self) -> (r: ImageDosHeader)
        ensures
            dos_header_matches(self@, 0, r),
    {
        proof {
            use_type_invariant(self);
        }
        read_dos_header(self.image, 0)
    }

    /// The NT headers at `e_lfanew`.
    pub fn nt_headers(&self) -> (r: ImageNtHeaders)
        ensures
            r == spec_nt_headers32(self@, spec_nt_off(self@)),
    {
        proof {
            use_type_invariant(self);
        }
        let nt = crate::bytes::read_u32(self.image, 60) as usize;
        read_nt_headers32(self.image, nt)
    }

    /// The file header.
    pub fn file_header(&self) -> (r: ImageFileHeader)
        ensures
            r == spec_file_header(self@, spec_nt_off(self@) + 4),
    {
        self.nt_headers().FileHeader
    }

    /// The optional header.
    pub fn optional_header(&self) -> (r: ImageOptionalHeader)
        ensures
            r == spec_optional_header32(self@, spec_opt_off(self@)),
    {
        self.nt_headers().OptionalHeader
    }

    /// The section headers, located right after the optional header.
    pub fn section_headers(&self) -> (r: Vec<ImageSectionHeader>)
        ensures
            r@.len() == spec_num_sections(self@),
            forall|i: int|
                0 <= i < r@.len() ==> section_header_matches(
                    self@,
                    spec_section_off(self@, i),
                    r@[i],
                ),
    {
        proof {
            use_type_invariant(self);
        }
        let n: usize = self.image.len();
        let nt = crate::bytes::read_u32(self.image, 60) as u64;
        let opt_size = crate::bytes::read_u16(self.image, nt as usize + 20) as u64;
        let num_sections = crate::bytes::read_u16(self.image, nt as usize + 6) as u64;
        let sections_off = nt + 24 + opt_size;
        let mut out: Vec<ImageSectionHeader> = Vec::new();
        let mut i: u64 = 0;
        while i < num_sections
            invariant
                0 <= i <= num_sections,
                n == self@.len(),
                n <= 0xFFFF_FFFF,
                num_sections == spec_num_sections(self@),
                sections_off == spec_sections_off(self@),
                sections_off + 40 * num_sections <= n,
                out@.len() == i,
                forall|j: int|
                    0 <= j < i ==> section_header_matches(self@, spec_section_off(self@, j), out@[j]),
            decreases num_sections - i,
        {
            let h = read_section_header(self.image, (sections_off + 40 * i) as usize);
            out.push(h);
            i = i + 1;
        }
        out
    }

    /// The data directory, `NumberOfRvaAndSizes` entries long.
    pub fn data_directory(&self) -> (r: Vec<ImageDataDirectory>)
        ensures
            r@.len() == spec_num_dirs(self@),
            forall|i: int|
                0 <= i < r@.len() ==> r@[i] == spec_data_directory(
                    self@,
                    spec_dirs_off(self@) + 8 * i,
                ),
    {
        proof {
            use_type_invariant(self);
        }
        let n: usize = self.image.len();
        let nt = crate::bytes::read_u32(self.image, 60) as u64;
        let num_dirs = crate::bytes::read_u32(self.image, nt as usize + 24 + 92) as u64;
        let dirs_off = nt + 24 + 96;
        let mut out: Vec<ImageDataDirectory> = Vec::new();
        let mut i: u64 = 0;
        while i < num_dirs
            invariant
                0 <= i <= num_dirs,
                n == self@.len(),
                n <= 0xFFFF_FFFF,
                num_dirs == spec_num_dirs(self@),
                dirs_off == spec_dirs_off(self@),
                dirs_off + 8 * num_dirs <= n,
                out@.len() == i,
                forall|j: int|
                    0 <= j < i ==> out@[j] == spec_data_directory(self@, spec_dirs_off(self@) + 8 * j),
            decreases num_dirs - i,
        {
            let d = read_data_directory(self.image, (dirs_off + 8 * i) as usize);
            out.push(d);
            i = i + 1;
        }
        out
    }

    /// The bytes at `rva`.  Absent when `rva` is `BADRVA`; an out-of-bounds
    /// read would mean the buffer's integrity was broken, so the caller
    /// vouches for the bounds.
    pub fn read_bytes(&self, rva: Rva, len: usize) -> (r: Option<&'a [u8]>)
        requires
            rva != BADRVA ==> rva + len <= self@.len(),
        ensures
            rva == BADRVA <==> r is None,
            r matches Some(s) ==> s@ == self@.subrange(rva as int, rva + len),
    {
        if rva == BADRVA {
            None
        } else {
            let _n: usize = self.image.len();
            Some(slice_subrange(self.image, rva as usize, rva as usize + len))
        }
    }

    /// The 16-bit word at `rva`, which must be 2-aligned.
    pub fn read_u16(&self, rva: Rva) -> (r: Option<u16>)
        requires
            rva != BADRVA ==> rva + 2 <= self@.len() && rva % 2 == 0,
        ensures
            rva == BADRVA <==> r is None,
            r matches Some(w) ==> w == le16(self@, rva as int),
    {
        if rva == BADRVA {
            None
        } else {
            Some(crate::bytes::read_u16(self.image, rva as usize))
        }
    }

    /// The 32-bit word at `rva`, which must be 4-aligned.
    pub fn read_u32(&self, rva: Rva) -> (r: Option<u32>)
        requires
            rva != BADRVA ==> rva + 4 <= self@.len() && rva % 4 == 0,
        ensures
            rva == BADRVA <==> r is None,
            r matches Some(w) ==> w == le32(self@, rva as int),
    {
        if rva == BADRVA {
            None
        } else {
            Some(crate::bytes::read_u32(self.image, rva as usize))
        }
    }

    /// The 64-bit word at `rva`, which must be 8-aligned.
    pub fn read_u64(&self, rva: Rva) -> (r: Option<u64>)
        requires
            rva != BADRVA ==> rva + 8 <= self@.len() && rva % 8 == 0,
        ensures
            rva == BADRVA <==> r is None,
            r matches Some(w) ==> w == le64(self@, rva as int),
    {
        if rva == BADRVA {
            None
        } else {
            Some(crate::bytes::read_u64(self.image, rva as usize))
        }
    }

    /// The NUL-terminated byte string at `rva`, without its terminator.
    /// The caller vouches that a terminator exists within the buffer.
    pub fn read_str(&self, rva: Rva) -> (r: Option<&'a [u8]>)
        requires
            rva != BADRVA ==> rva <= self@.len() && has_nul(self@, rva as int),
        ensures
            rva == BADRVA <==> r is None,
            r matches Some(s) ==> s@ == cstr_at(self@, rva as int),
    {
        if rva == BADRVA {
            None
        } else {
            Some(read_cstr(self.image, rva as usize))
        }
    }

    /// Converts `rva` to a file offset by scanning the section headers.
    pub fn rva_to_file_offset(&self, rva: Rva) -> (r: Option<FileOffset>)
        ensures
            r == spec_rva_to_file_offset(self@, rva),
    {
        proof {
            use_type_invariant(self);
        }
        let n: usize = self.image.len();
        let nt = crate::bytes::read_u32(self.image, 60) as u64;
        let opt_size = crate::bytes::read_u16(self.image, nt as usize + 20) as u64;
        let num_sections = crate::bytes::read_u16(self.image, nt as usize + 6) as u64;
        let sections_off = nt + 24 + opt_size;
        let mut i: u64 = 0;
        while i < num_sections
            invariant
                0 <= i <= num_sections,
                n == self@.len(),
                n <= 0xFFFF_FFFF,
                valid_image(self@),
                num_sections == spec_num_sections(self@),
                sections_off == spec_sections_off(self@),
                sections_off + 40 * num_sections <= n,
                spec_rva_to_file_offset(self@, rva) == spec_rva_to_file_offset_from(
                    self@,
                    rva,
                    i as int,
                ),
            decreases num_sections - i,
        {
            let so = (sections_off + 40 * i) as usize;
            let va = crate::bytes::read_u32(self.image, so + 12);
            let rs = crate::bytes::read_u32(self.image, so + 16);
            let rp = crate::bytes::read_u32(self.image, so + 20);
            if va <= rva && (rva as u64) < va as u64 + rs as u64 {
                return Some(rva as u64 - va as u64 + rp as u64);
            }
            i = i + 1;
        }
        None
    }

    /// Converts a file offset back to an Rva by scanning the section
    /// headers.  `BADRVA` when no section's raw range covers the offset.
    pub fn file_offset_to_rva(&self, file_offset: FileOffset) -> (r: Rva)
        ensures
            r == spec_file_offset_to_rva(self@, file_offset),
    {
        proof {
            use_type_invariant(self);
        }
        let n: usize = self.image.len();
        let nt = crate::bytes::read_u32(self.image, 60) as u64;
        let opt_size = crate::bytes::read_u16(self.image, nt as usize + 20) as u64;
        let num_sections = crate::bytes::read_u16(self.image, nt as usize + 6) as u64;
        let sections_off = nt + 24 + opt_size;
        let mut i: u64 = 0;
        while i < num_sections
            invariant
                0 <= i <= num_sections,
                n == self@.len(),
                n <= 0xFFFF_FFFF,
                valid_image(self@),
                num_sections == spec_num_sections(self@),
                sections_off == spec_sections_off(self@),
                sections_off + 40 * num_sections <= n,
                spec_file_offset_to_rva(self@, file_offset) == spec_file_offset_to_rva_from(
                    self@,
                    file_offset,
                    i as int,
                ),
            decreases num_sections - i,
        {
            let so = (sections_off + 40 * i) as usize;
            let va = crate::bytes::read_u32(self.image, so + 12);
            let rs = crate::bytes::read_u32(self.image, so + 16);
            let rp = crate::bytes::read_u32(self.image, so + 20);
            if rp as u64 <= file_offset && file_offset < rp as u64 + rs as u64 {
                return (file_offset - rp as u64 + va as u64) as u32;
            }
            i = i + 1;
        }
        BADRVA
    }

    /// Converts `rva` to a virtual address by adding the image base.  The
    /// sentinel is preserved.
    pub fn rva_to_va(&self, rva: Rva) -> (r: Va)
        requires
            spec_image_base(self@) + rva <= u32::MAX,
        ensures
            rva == BADRVA ==> r == BADVA,
            rva != BADRVA ==> r == spec_image_base(self@) + rva,
    {
        proof {
            use_type_invariant(self);
        }
        if rva != BADRVA {
            self.vbase + rva
        } else {
            BADVA
        }
    }

    /// Converts a virtual address back to an Rva.  The sentinel is
    /// preserved; an address outside the 32-bit range above the image base
    /// is absent rather than truncated.
    pub fn va_to_rva(&self, va: Va) -> (r: Option<Rva>)
        ensures
            va == BADVA ==> r == Some(BADRVA),
            va != BADVA && spec_image_base(self@) <= va ==> r == Some(
                (va - spec_image_base(self@)) as u32,
            ),
            va != BADVA && !(spec_image_base(self@) <= va) ==> r is None,
    {
        proof {
            use_type_invariant(self);
        }
        if va == BADVA {
            Some(BADRVA)
        } else if self.vbase <= va {
            Some(va - self.vbase)
        } else {
            None
        }
    }
}

/// First-match section scan for `rva`, from section `i` on.
pub open spec fn spec_rva_to_file_offset_from(b: Seq<u8>, rva: u32, i: int) -> Option<u64>
    decreases spec_num_sections(b) - i,
{
    if i < 0 || i >= spec_num_sections(b) {
        None
    } else if spec_section_va(b, i) <= rva < spec_section_va(b, i) + spec_section_raw_size(b, i) {
        Some((rva - spec_section_va(b, i) + spec_section_raw_ptr(b, i)) as u64)
    } else {
        spec_rva_to_file_offset_from(b, rva, i + 1)
    }
}

/// The file offset of `rva`: the first section whose raw range covers it
/// decides, as `PointerToRawData + (rva - VirtualAddress)`.
pub open spec fn spec_rva_to_file_offset(b: Seq<u8>, rva: u32) -> Option<u64> {
    spec_rva_to_file_offset_from(b, rva, 0)
}

/// First-match section scan for `off`, from section `i` on.
pub open spec fn spec_file_offset_to_rva_from(b: Seq<u8>, off: u64, i: int) -> u32
    decreases spec_num_sections(b) - i,
{
    if i < 0 || i >= spec_num_sections(b) {
        0
    } else if spec_section_raw_ptr(b, i) <= off < spec_section_raw_ptr(b, i)
        + spec_section_raw_size(b, i) {
        (off - spec_section_raw_ptr(b, i) + spec_section_va(b, i)) as u32
    } else {
        spec_file_offset_to_rva_from(b, off, i + 1)
    }
}

/// The Rva of file offset `off`: the first section whose raw range covers
/// it decides; 0 when none does.
pub open spec fn spec_file_offset_to_rva(b: Seq<u8>, off: u64) -> u32 {
    spec_file_offset_to_rva_from(b, off, 0)
}

/// Section `i`'s virtual range covers `rva`.
pub open spec fn spec_section_covers_rva(b: Seq<u8>, i: int, rva: u32) -> bool {
    spec_section_va(b, i) <= rva < spec_section_va(b, i) + spec_section_raw_size(b, i)
}

/// Section `i`'s raw-data range covers file offset `off`.
pub open spec fn spec_section_covers_off(b: Seq<u8>, i: int, off: u64) -> bool {
    spec_section_raw_ptr(b, i) <= off < spec_section_raw_ptr(b, i) + spec_section_raw_size(b, i)
}

/// No two sections' raw-data ranges overlap.
pub open spec fn sections_raw_disjoint(b: Seq<u8>) -> bool {
    forall|i: int, j: int|
        0 <= i < spec_num_sections(b) && 0 <= j < spec_num_sections(b) && i != j
            ==> #[trigger] spec_section_raw_ptr(b, i) + spec_section_raw_size(b, i)
            <= #[trigger] spec_section_raw_ptr(b, j) || spec_section_raw_ptr(b, j)
            + spec_section_raw_size(b, j) <= spec_section_raw_ptr(b, i)
}

/// Index of the first section at or after `k` whose virtual range covers
/// `rva`; the section count when none does.
spec fn first_section_for_rva(b: Seq<u8>, rva: u32, k: int) -> int
    decreases spec_num_sections(b) - k,
{
    if k < 0 || k >= spec_num_sections(b) {
        spec_num_sections(b)
    } else if spec_section_covers_rva(b, k, rva) {
        k
    } else {
        first_section_for_rva(b, rva, k + 1)
    }
}

/// Index of the first section at or after `k` whose raw range covers
/// `off`; the section count when none does.
spec fn first_section_for_off(b: Seq<u8>, off: u64, k: int) -> int
    decreases spec_num_sections(b) - k,
{
    if k < 0 || k >= spec_num_sections(b) {
        spec_num_sections(b)
    } else if spec_section_covers_off(b, k, off) {
        k
    } else {
        first_section_for_off(b, off, k + 1)
    }
}

proof fn lemma_rva_scan(b: Seq<u8>, rva: u32, k: int)
    requires
        0 <= k <= spec_num_sections(b),
    ensures
        ({
            let i = first_section_for_rva(b, rva, k);
            &&& k <= i <= spec_num_sections(b)
            &&& i < spec_num_sections(b) ==> spec_section_covers_rva(b, i, rva)
                && spec_rva_to_file_offset_from(b, rva, k) == Some(
                (rva - spec_section_va(b, i) + spec_section_raw_ptr(b, i)) as u64,
            )
            &&& i == spec_num_sections(b) ==> spec_rva_to_file_offset_from(b, rva, k) is None
        }),
    decreases spec_num_sections(b) - k,
{
    if k < spec_num_sections(b) && !spec_section_covers_rva(b, k, rva) {
        lemma_rva_scan(b, rva, k + 1);
    }
}

proof fn lemma_off_scan(b: Seq<u8>, off: u64, k: int)
    requires
        0 <= k <= spec_num_sections(b),
    ensures
        k <= first_section_for_off(b, off, k) <= spec_num_sections(b),
        first_section_for_off(b, off, k) < spec_num_sections(b) ==> spec_section_covers_off(
            b,
            first_section_for_off(b, off, k),
            off,
        ),
        first_section_for_off(b, off, k) < spec_num_sections(b) ==> spec_file_offset_to_rva_from(
            b,
            off,
            k,
        ) == (off - spec_section_raw_ptr(b, first_section_for_off(b, off, k)) + spec_section_va(
            b,
            first_section_for_off(b, off, k),
        )) as u32,
        first_section_for_off(b, off, k) == spec_num_sections(b) ==> spec_file_offset_to_rva_from(
            b,
            off,
            k,
        ) == 0,
        first_section_for_off(b, off, k) == spec_num_sections(b) ==> forall|j: int|
            k <= j < spec_num_sections(b) ==> !#[trigger] spec_section_covers_off(b, j, off),
    decreases spec_num_sections(b) - k,
{
    if k < spec_num_sections(b) && !spec_section_covers_off(b, k, off) {
        lemma_off_scan(b, off, k + 1);
    }
}

/// Round trip: a file offset produced by `rva_to_file_offset` converts back
/// to the very same Rva, provided no two sections share raw-data bytes.
pub proof fn lemma_offset_round_trip(b: Seq<u8>, rva: u32)
    requires
        valid_image(b),
        sections_raw_disjoint(b),
        spec_rva_to_file_offset(b, rva) is Some,
    ensures
        spec_file_offset_to_rva(b, spec_rva_to_file_offset(b, rva)->Some_0) == rva,
{
    lemma_rva_scan(b, rva, 0);
    let i = first_section_for_rva(b, rva, 0);
    let off = spec_rva_to_file_offset(b, rva)->Some_0;
    assert(spec_section_covers_off(b, i, off));
    lemma_off_scan(b, off, 0);
    let m = first_section_for_off(b, off, 0);
    assert(m < spec_num_sections(b));
    assert(m == i);
}

} // verus!
