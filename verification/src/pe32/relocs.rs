//! PE base relocations.
//!
//! The relocation directory is a stream of blocks.  Each block carries a
//! page Rva and a total byte size, followed by 16-bit entries packing a
//! 4-bit relocation type and a 12-bit page offset.  The stream must tile
//! the directory's extent exactly: every block ends within the extent and
//! the last one ends on its edge.

use vstd::prelude::*;
use crate::bytes::le16;
use crate::bytes::le32;
use crate::image::ImageDataDirectory;
use crate::image::ImageBaseRelocation;
use crate::image::ImageBaseRelocBlock;
use crate::image::spec_base_relocation;
use crate::image::read_base_relocation;
use crate::image::spec_data_directory;
use crate::image::IMAGE_DIRECTORY_ENTRY_BASERELOC;
use super::image::Rva;
use super::peview::PeView;
use super::peview::spec_num_dirs;
use super::peview::spec_dirs_off;

verus! {

/// The relocation stream between `pos` and `end` is well formed: either
/// the positions meet, or a block header fits, declares more than its own
/// eight bytes, and ends within both the extent and the buffer, with a
/// well-formed stream after it.
pub open spec fn relocs_wf(b: Seq<u8>, pos: int, end: int) -> bool
    decreases end - pos,
{
    if pos >= end {
        true
    } else if pos + 8 > end || pos + 8 > b.len() {
        false
    } else {
        let size = le32(b, pos + 4) as int;
        if size <= 8 {
            false
        } else if pos + size > end || pos + size > b.len() {
            false
        } else {
            relocs_wf(b, pos + size, end)
        }
    }
}

/// The sum of `SizeOfBlock` over the blocks of the stream.
pub open spec fn spec_blocks_size_sum(b: Seq<u8>, pos: int, end: int) -> int
    decreases end - pos,
{
    if pos >= end {
        0
    } else if pos + 8 > end || pos + 8 > b.len() {
        0
    } else {
        let size = le32(b, pos + 4) as int;
        if size <= 8 || pos + size > end || pos + size > b.len() {
            0
        } else {
            size + spec_blocks_size_sum(b, pos + size, end)
        }
    }
}

/// The entries of the block whose header lies at `pos`:
/// `(SizeOfBlock - 8) / 2` words right after the header.
pub open spec fn spec_block_entries(b: Seq<u8>, pos: int) -> Seq<ImageBaseRelocBlock> {
    Seq::new(
        (((le32(b, pos + 4) - 8) / 2) as nat),
        |i: int| ImageBaseRelocBlock { TypeAndOffset: le16(b, pos + 8 + 2 * i) },
    )
}

/// The sum of the emitted block sizes is exactly the directory's extent:
/// a well-formed stream tiles it with no padding.
pub proof fn lemma_blocks_size_sum(b: Seq<u8>, pos: int, end: int)
    requires
        pos <= end,
        relocs_wf(b, pos, end),
    ensures
        spec_blocks_size_sum(b, pos, end) == end - pos,
    decreases end - pos,
{
    if pos < end {
        let size = le32(b, pos + 4) as int;
        lemma_blocks_size_sum(b, pos + size, end);
    }
}

/// Relocations directory handle: the base-relocation data-directory slot.
pub struct RelocsDirectory {
    pub datadir_: ImageDataDirectory,
}

impl<'a> PeView<'a> {
    /// The relocations directory, present iff the base-relocation
    /// data-directory slot exists and holds a non-zero Rva.
    pub fn relocs(&self) -> (r: Option<RelocsDirectory>)
        ensures
            r is Some <==> spec_num_dirs(self@) > IMAGE_DIRECTORY_ENTRY_BASERELOC
                && spec_data_directory(
                self@,
                spec_dirs_off(self@) + 8 * IMAGE_DIRECTORY_ENTRY_BASERELOC,
            ).VirtualAddress != 0,
            r matches Some(d) ==> d.datadir_ == spec_data_directory(
                self@,
                spec_dirs_off(self@) + 8 * IMAGE_DIRECTORY_ENTRY_BASERELOC,
            ),
    {
        let dirs = self.data_directory();
        if dirs.len() <= IMAGE_DIRECTORY_ENTRY_BASERELOC {
            return None;
        }
        let dd = dirs[IMAGE_DIRECTORY_ENTRY_BASERELOC];
        if dd.VirtualAddress == 0 {
            return None;
        }
        Some(RelocsDirectory { datadir_: dd })
    }
}

impl RelocsDirectory {
    /// Checks the whole relocation stream: every block must declare more
    /// than its own eight header bytes and end within both the directory's
    /// extent and the buffer, and the blocks must tile the extent exactly.
    /// In particular a block with `SizeOfBlock` equal to the header size
    /// is refused.
    pub fn validate(&self, view: &PeView<'_>) -> (r: bool)
        ensures
            r == relocs_wf(
                view@,
                self.datadir_.VirtualAddress as int,
                self.datadir_.VirtualAddress + self.datadir_.Size,
            ),
    {
        let img = view.image();
        let n: usize = img.len();
        let end = self.datadir_.VirtualAddress as u64 + self.datadir_.Size as u64;
        let mut pos: u64 = self.datadir_.VirtualAddress as u64;
        while pos < end
            invariant
                n == view@.len(),
                img@ == view@,
                end == self.datadir_.VirtualAddress + self.datadir_.Size,
                relocs_wf(view@, self.datadir_.VirtualAddress as int, end as int) == relocs_wf(
                    view@,
                    pos as int,
                    end as int,
                ),
            decreases end - pos,
        {
            if pos + 8 > end || pos + 8 > n as u64 {
                return false;
            }
            let size = crate::bytes::read_u32(img, pos as usize + 4) as u64;
            if size <= 8 {
                return false;
            }
            if pos + size > end || pos + size > n as u64 {
                return false;
            }
            pos = pos + size;
        }
        true
    }

    /// Starts iteration over the relocation blocks.
    pub fn iter(&self) -> (r: RelocsIterator)
        ensures
            r.datadir_ == self.datadir_,
            r.it == self.datadir_.VirtualAddress,
    {
        RelocsIterator { datadir_: self.datadir_, it: self.datadir_.VirtualAddress as u64 }
    }
}

/// Walks the relocation stream block by block.
pub struct RelocsIterator {
    pub datadir_: ImageDataDirectory,
    pub it: u64,
}

impl RelocsIterator {
    /// End of the directory's extent.
    pub open spec fn spec_end(self) -> int {
        self.datadir_.VirtualAddress + self.datadir_.Size
    }

    /// The next relocation block, or nothing once the extent is consumed.
    /// The caller vouches that the remaining stream is well formed.
    pub fn next(&mut self, view: &PeView<'_>) -> (r: Option<BaseRelocations>)
        requires
            relocs_wf(view@, old(self).it as int, old(self).spec_end()),
        ensures
            final(self).datadir_ == old(self).datadir_,
            old(self).it >= old(self).spec_end() ==> r is None && final(self).it == old(self).it,
            old(self).it < old(self).spec_end() ==> ({
                let hdr = spec_base_relocation(view@, old(self).it as int);
                &&& r matches Some(blocks)
                &&& blocks.image_ == hdr
                &&& blocks.blocks_@ == spec_block_entries(view@, old(self).it as int)
                &&& final(self).it == old(self).it + hdr.SizeOfBlock
                &&& relocs_wf(view@, final(self).it as int, final(self).spec_end())
            }),
    {
        let end = self.datadir_.VirtualAddress as u64 + self.datadir_.Size as u64;
        if self.it >= end {
            return None;
        }
        let img = view.image();
        let n: usize = img.len();
        let hdr = read_base_relocation(img, self.it as usize);
        let size = hdr.SizeOfBlock;
        let count: usize = (size as usize - 8) / 2;
        let mut entries: Vec<ImageBaseRelocBlock> = Vec::new();
        let mut j: usize = 0;
        while j < count
            invariant
                0 <= j <= count,
                n == view@.len(),
                img@ == view@,
                self.it + 8 + 2 * count <= n,
                count == ((le32(view@, self.it as int + 4) - 8) / 2),
                entries@.len() == j,
                forall|k: int|
                    0 <= k < j ==> entries@[k] == spec_block_entries(view@, self.it as int)[k],
            decreases count - j,
        {
            let w = crate::bytes::read_u16(img, (self.it as usize) + 8 + 2 * j);
            entries.push(ImageBaseRelocBlock { TypeAndOffset: w });
            j = j + 1;
        }
        proof {
            assert(entries@ =~= spec_block_entries(view@, self.it as int));
        }
        self.it = self.it + size as u64;
        Some(BaseRelocations { image_: hdr, blocks_: entries })
    }
}

/// One base-relocation block: its header and its entries.
pub struct BaseRelocations {
    pub image_: ImageBaseRelocation,
    pub blocks_: Vec<ImageBaseRelocBlock>,
}

impl BaseRelocations {
    /// The block's header record.
    pub fn image(&self) -> (r: ImageBaseRelocation)
        ensures
            r == self.image_,
    {
        self.image_
    }

    /// The block's entries.
    pub fn blocks(&self) -> (r: &Vec<ImageBaseRelocBlock>)
        ensures
            r@ == self.blocks_@,
    {
        &self.blocks_
    }

    /// The target Rva of an entry: the block's page Rva plus the entry's
    /// 12-bit offset.
    pub fn rva_of(&self, block: &ImageBaseRelocBlock) -> (r: Rva)
        requires
            self.image_.VirtualAddress + block.TypeAndOffset % 0x1000 <= 0xFFFF_FFFF,
        ensures
            r == self.image_.VirtualAddress + block.TypeAndOffset % 0x1000,
    {
        let offset = block.TypeAndOffset % 0x1000;
        self.image_.VirtualAddress + offset as u32
    }

    /// The relocation type of an entry: its high 4 bits.
    pub fn type_of(&self, block: &ImageBaseRelocBlock) -> (r: u8)
        ensures
            r == block.TypeAndOffset / 0x1000,
    {
        (block.TypeAndOffset / 0x1000) as u8
    }
}

} // verus!
