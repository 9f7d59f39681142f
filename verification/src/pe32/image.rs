//! The 32-bit instantiation of the shared PE structures.

use vstd::prelude::*;

verus! {

pub const IMAGE_NT_OPTIONAL_HDR_MAGIC: u16 = crate::image::IMAGE_NT_OPTIONAL_HDR32_MAGIC;

pub type ImageOptionalHeader = crate::image::ImageOptionalHeader32;

pub type ImageNtHeaders = crate::image::ImageNtHeaders32;

pub const IMAGE_ORDINAL_FLAG: u32 = crate::image::IMAGE_ORDINAL_FLAG32;

/// Relative virtual address: an offset from the base of the mapped image.
pub type Rva = u32;

/// Virtual address: an absolute address as known by the image.
pub type Va = u32;

/// Offset into the on-disk file.
pub type FileOffset = u64;

/// Invalid Rva value.
pub const BADRVA: Rva = 0;

/// Invalid Va value.
pub const BADVA: Va = 0;

} // verus!
