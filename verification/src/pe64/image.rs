//! The 64-bit instantiation of the shared PE structures.

use vstd::prelude::*;

verus! {

pub const IMAGE_NT_OPTIONAL_HDR_MAGIC: u16 = crate::image::IMAGE_NT_OPTIONAL_HDR64_MAGIC;

pub type ImageOptionalHeader = crate::image::ImageOptionalHeader64;

pub type ImageNtHeaders = crate::image::ImageNtHeaders64;

pub const IMAGE_ORDINAL_FLAG: u64 = crate::image::IMAGE_ORDINAL_FLAG64;

/// Relative virtual address: an offset from the base of the mapped image.
pub type Rva = u32;

/// Virtual address: an absolute address as known by the image.
pub type Va = u64;

/// Offset into the on-disk file.
pub type FileOffset = u64;

/// Invalid Rva value.
pub const BADRVA: Rva = 0;

/// Invalid Va value.
pub const BADVA: Va = 0;

} // verus!
