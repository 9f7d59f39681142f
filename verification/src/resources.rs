//! PE resources: the recursive resource tree.
//!
//! The resource directory is a little filesystem.  Every offset inside it
//! -- child directories, data entries, name strings -- is relative to the
//! directory's start, except a data entry's `OffsetToData`, which is an
//! image-absolute Rva; the directory's own Rva (`vbase`) is subtracted
//! before use.  Directories nest by offsets, so the encoding can express
//! cycles; traversal therefore carries a depth budget and rejects the tree
//! once it is exhausted.

use vstd::prelude::*;
use vstd::slice::slice_subrange;
use crate::bytes::le16;
use crate::image::ImageResourceDirectory;
use crate::image::ImageResourceDirectoryEntry;
use crate::image::ImageResourceDataEntry;
use crate::image::spec_resource_directory;
use crate::image::spec_resource_directory_entry;
use crate::image::spec_resource_data_entry;
use crate::image::read_resource_directory;
use crate::image::read_resource_directory_entry;
use crate::image::read_resource_data_entry;
use crate::bytes::words_eq;

verus! {

/// Resources filesystem: a borrowed slice of the resource directory's
/// extent, plus the directory's own Rva for `OffsetToData` adjustment.
pub struct Resources<'a> {
    data: &'a [u8],
    vbase: u32,
}

impl<'a> View for Resources<'a> {
    type V = Seq<u8>;

    closed spec fn view(&self) -> Seq<u8> {
        self.data@
    }
}

/// The length-prefixed UTF-16 string at `off`: a 16-bit length in code
/// units, then that many code units.
pub open spec fn spec_utf16_at(b: Seq<u8>, off: int) -> Seq<u16> {
    Seq::new(le16(b, off) as nat, |i: int| le16(b, off + 2 + 2 * i))
}

/// Number of entries of the directory whose header lies at `off`: named
/// entries first, then id entries.
pub open spec fn spec_dir_count(b: Seq<u8>, off: int) -> int {
    spec_resource_directory(b, off).NumberOfNamedEntries + spec_resource_directory(
        b,
        off,
    ).NumberOfIdEntries as int
}

/// Entry `i` of the directory whose header lies at `off`.
pub open spec fn spec_dir_entry(b: Seq<u8>, off: int, i: int) -> ImageResourceDirectoryEntry {
    spec_resource_directory_entry(b, off + 16 + 8 * i)
}

/// The name of entry `e` can be read: either it is a numeric id, or its
/// string (with its length prefix) lies within the resource slice.
pub open spec fn name_wf(b: Seq<u8>, e: ImageResourceDirectoryEntry) -> bool {
    e.Name >= 0x8000_0000 ==> {
        let off = e.Name % 0x8000_0000;
        &&& off + 2 <= b.len()
        &&& off + 2 + 2 * le16(b, off as int) <= b.len()
    }
}

/// The subtree behind entry `e` is well formed within `depth` levels of
/// directories: every record it makes reachable lies within the resource
/// slice, and no chain of directories is deeper than `depth`.  A cyclic
/// offset chain fails this for every finite depth.
pub open spec fn subtree_wf(b: Seq<u8>, e: ImageResourceDirectoryEntry, depth: int) -> bool
    decreases depth, 0int, 0int,
{
    if e.Offset < 0x8000_0000 {
        e.Offset + 16 <= b.len()
    } else if depth <= 0 {
        false
    } else {
        let off = e.Offset % 0x8000_0000;
        &&& off + 16 <= b.len()
        &&& off + 16 + 8 * spec_dir_count(b, off as int) <= b.len()
        &&& entries_wf(b, off as int, spec_dir_count(b, off as int), 0, depth - 1)
    }
}

/// Entries `i` and beyond of the directory at `off` all have readable
/// names and well-formed subtrees within `depth` levels.
pub open spec fn entries_wf(b: Seq<u8>, off: int, count: int, i: int, depth: int) -> bool
    decreases depth, 1int, count - i,
{
    if i < 0 || i >= count {
        true
    } else {
        &&& name_wf(b, spec_dir_entry(b, off, i))
        &&& subtree_wf(b, spec_dir_entry(b, off, i), depth)
        &&& entries_wf(b, off, count, i + 1, depth)
    }
}

proof fn lemma_entries_wf_skip(b: Seq<u8>, off: int, count: int, k: int, i: int, depth: int)
    requires
        0 <= k <= i <= count,
        forall|j: int|
            k <= j < i ==> name_wf(b, #[trigger] spec_dir_entry(b, off, j)) && subtree_wf(
                b,
                spec_dir_entry(b, off, j),
                depth,
            ),
    ensures
        entries_wf(b, off, count, k, depth) == entries_wf(b, off, count, i, depth),
    decreases i - k,
{
    if k < i {
        lemma_entries_wf_skip(b, off, count, k + 1, i, depth);
    }
}

impl<'a> Resources<'a> {
    /// Interprets `data` as a resource directory whose own image Rva is
    /// `vbase`.  No validation is done ahead of time.
    pub fn new(data: &'a [u8], vbase: u32) -> (r: Resources<'a>)
        ensures
            r@ == data@,
            r.spec_vbase() == vbase,
    {
        Resources { data, vbase }
    }

    /// The Rva that is subtracted from each data entry's `OffsetToData`.
    pub closed spec fn spec_vbase(&self) -> u32 {
        self.vbase
    }

    /// Length of the resource slice.
    pub fn len(&self) -> (r: usize)
        ensures
            r == self@.len(),
    {
        self.data.len()
    }

    /// The synthetic root entry that seeds traversal: no name, and a
    /// directory at offset 0.
    pub fn root(&self) -> (r: ResourceDirectoryEntry)
        ensures
            r.image_ == (ImageResourceDirectoryEntry { Name: 0, Offset: 0x8000_0000 }),
    {
        ResourceDirectoryEntry { image_: ImageResourceDirectoryEntry { Name: 0, Offset: 0x8000_0000 } }
    }

    /// The `len` bytes at `off` of the resource slice.
    pub fn read_slice(&self, off: usize, len: usize) -> (r: &'a [u8])
        requires
            off + len <= self@.len(),
        ensures
            r@ == self@.subrange(off as int, off + len),
    {
        let _n: usize = self.data.len();
        slice_subrange(self.data, off, off + len)
    }

    /// The length-prefixed UTF-16 string at `off`.
    fn read_str(&self, off: usize) -> (r: Vec<u16>)
        requires
            off + 2 <= self@.len(),
            off + 2 + 2 * le16(self@, off as int) <= self@.len(),
        ensures
            r@ == spec_utf16_at(self@, off as int),
    {
        let n: usize = self.data.len();
        let words = crate::bytes::read_u16(self.data, off) as usize;
        let mut out: Vec<u16> = Vec::new();
        let mut i: usize = 0;
        while i < words
            invariant
                0 <= i <= words,
                n == self@.len(),
                words == le16(self@, off as int),
                off + 2 + 2 * words <= self@.len(),
                self@ == self.data@,
                out@.len() == i,
                forall|j: int| 0 <= j < i ==> out@[j] == spec_utf16_at(self@, off as int)[j],
            decreases words - i,
        {
            out.push(crate::bytes::read_u16(self.data, off + 2 + 2 * i));
            i = i + 1;
        }
        proof {
            assert(out@ =~= spec_utf16_at(self@, off as int));
        }
        out
    }
}

/// Spec-level value of a resource name.
pub enum SpecResourceName {
    Id(u16),
    Name(Seq<u16>),
}

/// A resource name: a numeric id, or a UTF-16 string.
pub enum ResourceName {
    /// A 16-bit resource id.
    Id(u16),
    /// A named resource, in UTF-16 code units.
    Name(Vec<u16>),
}

impl View for ResourceName {
    type V = SpecResourceName;

    open spec fn view(&self) -> SpecResourceName {
        match self {
            ResourceName::Id(id) => SpecResourceName::Id(*id),
            ResourceName::Name(w) => SpecResourceName::Name(w@),
        }
    }
}

/// The name of entry `e`: a string within the resource slice when the high
/// bit of the name word is set, the low 16 bits as an id otherwise.
pub open spec fn spec_entry_name(b: Seq<u8>, e: ImageResourceDirectoryEntry) -> SpecResourceName {
    if e.Name >= 0x8000_0000 {
        SpecResourceName::Name(spec_utf16_at(b, (e.Name % 0x8000_0000) as int))
    } else {
        SpecResourceName::Id((e.Name % 0x1_0000) as u16)
    }
}

/// A resource directory entry is either a further subdirectory or a data
/// leaf.
pub enum ResourceEntry {
    Directory(ResourceDirectory),
    DataEntry(ResourceDataEntry),
}

/// A directory entry: one name-and-offset record of some directory.
pub struct ResourceDirectoryEntry {
    pub image_: ImageResourceDirectoryEntry,
}

impl ResourceDirectoryEntry {
    /// The underlying directory entry record.
    pub fn image(&self) -> (r: ImageResourceDirectoryEntry)
        ensures
            r == self.image_,
    {
        self.image_
    }

    /// The name of this entry.
    pub fn name(&self, res: &Resources<'_>) -> (r: ResourceName)
        requires
            name_wf(res@, self.image_),
        ensures
            r@ == spec_entry_name(res@, self.image_),
    {
        if self.image_.Name >= 0x8000_0000 {
            let off = (self.image_.Name % 0x8000_0000) as usize;
            ResourceName::Name(res.read_str(off))
        } else {
            ResourceName::Id((self.image_.Name % 0x1_0000) as u16)
        }
    }

    /// Whether this entry points at a subdirectory (high bit of the offset
    /// word set) rather than a data entry.
    pub fn is_dir(&self) -> (r: bool)
        ensures
            r == (self.image_.Offset >= 0x8000_0000),
    {
        self.image_.Offset >= 0x8000_0000
    }

    /// This entry as a subdirectory, when it is one.  The caller vouches
    /// that the directory header and its entry array lie within the
    /// resource slice.
    pub fn as_dir(&self, res: &Resources<'_>) -> (r: Option<ResourceDirectory>)
        requires
            self.image_.Offset >= 0x8000_0000 ==> {
                let off = self.image_.Offset % 0x8000_0000;
                &&& off + 16 <= res@.len()
                &&& off + 16 + 8 * spec_dir_count(res@, off as int) <= res@.len()
            },
        ensures
            self.image_.Offset < 0x8000_0000 ==> r is None,
            self.image_.Offset >= 0x8000_0000 ==> (r matches Some(d) && d.entry_ == self.image_
                && d.offset_ == self.image_.Offset % 0x8000_0000 && d.wf(res@)),
    {
        if self.image_.Offset >= 0x8000_0000 {
            let off = self.image_.Offset % 0x8000_0000;
            let _n: usize = res.len();
            let hdr = read_resource_directory(res.data, off as usize);
            Some(ResourceDirectory { entry_: self.image_, offset_: off, image_: hdr })
        } else {
            None
        }
    }

    /// This entry as a data entry, when it is one.  The caller vouches
    /// that the data-entry record lies within the resource slice.
    pub fn as_data(&self, res: &Resources<'_>) -> (r: Option<ResourceDataEntry>)
        requires
            self.image_.Offset < 0x8000_0000 ==> self.image_.Offset + 16 <= res@.len(),
        ensures
            self.image_.Offset >= 0x8000_0000 ==> r is None,
            self.image_.Offset < 0x8000_0000 ==> (r matches Some(d) && d.entry_ == self.image_
                && d.image_ == spec_resource_data_entry(res@, self.image_.Offset as int)),
    {
        if self.image_.Offset < 0x8000_0000 {
            let _n: usize = res.len();
            let rec = read_resource_data_entry(res.data, self.image_.Offset as usize);
            Some(ResourceDataEntry { entry_: self.image_, image_: rec })
        } else {
            None
        }
    }

    /// This entry as either a subdirectory or a data entry.
    pub fn entry(&self, res: &Resources<'_>) -> (r: ResourceEntry)
        requires
            self.image_.Offset >= 0x8000_0000 ==> {
                let off = self.image_.Offset % 0x8000_0000;
                &&& off + 16 <= res@.len()
                &&& off + 16 + 8 * spec_dir_count(res@, off as int) <= res@.len()
            },
            self.image_.Offset < 0x8000_0000 ==> self.image_.Offset + 16 <= res@.len(),
        ensures
            self.image_.Offset >= 0x8000_0000 ==> (r matches ResourceEntry::Directory(d)
                && d.entry_ == self.image_ && d.offset_ == self.image_.Offset % 0x8000_0000
                && d.wf(res@)),
            self.image_.Offset < 0x8000_0000 ==> (r matches ResourceEntry::DataEntry(d)
                && d.entry_ == self.image_ && d.image_ == spec_resource_data_entry(
                res@,
                self.image_.Offset as int,
            )),
    {
        if self.is_dir() {
            match self.as_dir(res) {
                Some(d) => ResourceEntry::Directory(d),
                None => unreached(),
            }
        } else {
            match self.as_data(res) {
                Some(d) => ResourceEntry::DataEntry(d),
                None => unreached(),
            }
        }
    }

    /// Checks this entry's whole subtree, descending at most `depth`
    /// levels of directories: every reachable record must lie within the
    /// resource slice.  Rejects trees deeper than the budget, which is how
    /// an offset cycle is refused.
    pub fn validate(&self, res: &Resources<'_>, depth: u32) -> (r: bool)
        ensures
            r == subtree_wf(res@, self.image_, depth as int),
        decreases depth,
    {
        let n: usize = res.len();
        if self.image_.Offset < 0x8000_0000 {
            return (self.image_.Offset as u64) + 16 <= n as u64;
        }
        if depth == 0 {
            return false;
        }
        let off = self.image_.Offset % 0x8000_0000;
        if (off as u64) + 16 > n as u64 {
            return false;
        }
        let hdr = read_resource_directory(res.data, off as usize);
        let count: u32 = hdr.NumberOfNamedEntries as u32 + hdr.NumberOfIdEntries as u32;
        if (off as u64) + 16 + 8 * (count as u64) > n as u64 {
            return false;
        }
        let mut i: u32 = 0;
        while i < count
            invariant
                0 <= i <= count,
                n == res@.len(),
                depth >= 1,
                self.image_.Offset >= 0x8000_0000,
                off == self.image_.Offset % 0x8000_0000,
                count == spec_dir_count(res@, off as int),
                off + 16 + 8 * count <= n,
                forall|j: int|
                    0 <= j < i ==> name_wf(res@, #[trigger] spec_dir_entry(res@, off as int, j))
                        && subtree_wf(res@, spec_dir_entry(res@, off as int, j), depth - 1),
            decreases count - i,
        {
            let e = read_resource_directory_entry(res.data, (off as usize) + 16 + 8 * (i as usize));
            proof {
                assert(e == spec_dir_entry(res@, off as int, i as int));
            }
            if e.Name >= 0x8000_0000 {
                let noff = e.Name % 0x8000_0000;
                if (noff as u64) + 2 > n as u64 {
                    proof {
                        assert(!name_wf(res@, spec_dir_entry(res@, off as int, i as int)));
                        lemma_entries_wf_skip(
                            res@,
                            off as int,
                            count as int,
                            0,
                            i as int,
                            depth - 1,
                        );
                    }
                    return false;
                }
                let words = crate::bytes::read_u16(res.data, noff as usize);
                if (noff as u64) + 2 + 2 * (words as u64) > n as u64 {
                    proof {
                        assert(!name_wf(res@, spec_dir_entry(res@, off as int, i as int)));
                        lemma_entries_wf_skip(
                            res@,
                            off as int,
                            count as int,
                            0,
                            i as int,
                            depth - 1,
                        );
                    }
                    return false;
                }
            }
            let child = ResourceDirectoryEntry { image_: e };
            if !child.validate(res, depth - 1) {
                proof {
                    lemma_entries_wf_skip(res@, off as int, count as int, 0, i as int, depth - 1);
                }
                return false;
            }
            i = i + 1;
        }
        proof {
            lemma_entries_wf_skip(res@, off as int, count as int, 0, count as int, depth - 1);
        }
        true
    }
}

/// First entry of the directory at `off` whose name equals `name`,
/// scanning from position `i` on.
pub open spec fn spec_find_from(b: Seq<u8>, off: int, name: SpecResourceName, i: int) -> Option<
    ImageResourceDirectoryEntry,
>
    decreases spec_dir_count(b, off) - i,
{
    if i < 0 || i >= spec_dir_count(b, off) {
        None
    } else if spec_entry_name(b, spec_dir_entry(b, off, i)) == name {
        Some(spec_dir_entry(b, off, i))
    } else {
        spec_find_from(b, off, name, i + 1)
    }
}

/// A resource directory: its header, its offset within the resource slice
/// (its entries follow the header inline), and the entry it came from.
pub struct ResourceDirectory {
    pub entry_: ImageResourceDirectoryEntry,
    pub offset_: u32,
    pub image_: ImageResourceDirectory,
}

impl ResourceDirectory {
    /// The header is what the bytes at the stored offset describe, and the
    /// entry array lies within the resource slice.
    pub open spec fn wf(self, b: Seq<u8>) -> bool {
        &&& self.image_ == spec_resource_directory(b, self.offset_ as int)
        &&& self.offset_ + 16 + 8 * spec_dir_count(b, self.offset_ as int) <= b.len()
    }

    /// Number of entries: named entries first, then id entries.
    pub open spec fn spec_count(self) -> int {
        self.image_.NumberOfNamedEntries + self.image_.NumberOfIdEntries as int
    }

    /// The directory entry this subdirectory came from.
    pub fn entry(&self) -> (r: ResourceDirectoryEntry)
        ensures
            r.image_ == self.entry_,
    {
        ResourceDirectoryEntry { image_: self.entry_ }
    }

    /// The underlying directory header record.
    pub fn image(&self) -> (r: ImageResourceDirectory)
        ensures
            r == self.image_,
    {
        self.image_
    }

    /// Finds a child entry by name: the first entry whose name equals
    /// `name`.
    pub fn find(&self, res: &Resources<'_>, name: &ResourceName) -> (r: Option<
        ResourceDirectoryEntry,
    >)
        requires
            self.wf(res@),
            forall|j: int|
                0 <= j < spec_dir_count(res@, self.offset_ as int) ==> name_wf(
                    res@,
                    #[trigger] spec_dir_entry(res@, self.offset_ as int, j),
                ),
        ensures
            r matches Some(e) ==> spec_find_from(res@, self.offset_ as int, name@, 0) == Some(
                e.image_,
            ),
            r is None ==> spec_find_from(res@, self.offset_ as int, name@, 0) is None,
    {
        let n: usize = res.len();
        let count: u32 = self.image_.NumberOfNamedEntries as u32
            + self.image_.NumberOfIdEntries as u32;
        let mut i: u32 = 0;
        while i < count
            invariant
                0 <= i <= count,
                n == res@.len(),
                self.wf(res@),
                count == spec_dir_count(res@, self.offset_ as int),
                forall|j: int|
                    0 <= j < count ==> name_wf(
                        res@,
                        #[trigger] spec_dir_entry(res@, self.offset_ as int, j),
                    ),
                spec_find_from(res@, self.offset_ as int, name@, 0) == spec_find_from(
                    res@,
                    self.offset_ as int,
                    name@,
                    i as int,
                ),
            decreases count - i,
        {
            let e = read_resource_directory_entry(
                res.data,
                (self.offset_ as usize) + 16 + 8 * (i as usize),
            );
            proof {
                assert(e == spec_dir_entry(res@, self.offset_ as int, i as int));
            }
            let child = ResourceDirectoryEntry { image_: e };
            let child_name = child.name(res);
            let same: bool = match (name, &child_name) {
                (ResourceName::Id(a), ResourceName::Id(b)) => *a == *b,
                (ResourceName::Name(a), ResourceName::Name(b)) => words_eq(
                    a.as_slice(),
                    b.as_slice(),
                ),
                _ => false,
            };
            if same {
                return Some(child);
            }
            i = i + 1;
        }
        None
    }

    /// Starts iteration over the child entries.
    pub fn iter(&self, res: &Resources<'_>) -> (r: ResourceDirectoryIterator)
        requires
            self.wf(res@),
        ensures
            r.offset_ == self.offset_,
            r.count == self.spec_count(),
            r.it == 0,
            r.wf(res@),
    {
        let count: u32 = self.image_.NumberOfNamedEntries as u32
            + self.image_.NumberOfIdEntries as u32;
        ResourceDirectoryIterator { offset_: self.offset_, count, it: 0 }
    }
}

/// Walks the entries of one resource directory.
pub struct ResourceDirectoryIterator {
    pub offset_: u32,
    pub count: u32,
    pub it: u32,
}

impl ResourceDirectoryIterator {
    /// The entry array the iterator walks lies within the resource slice.
    pub open spec fn wf(self, b: Seq<u8>) -> bool {
        self.offset_ + 16 + 8 * self.count <= b.len()
    }

    /// The next child entry, or nothing past the end.
    pub fn next(&mut self, res: &Resources<'_>) -> (r: Option<ResourceDirectoryEntry>)
        requires
            old(self).wf(res@),
        ensures
            final(self).offset_ == old(self).offset_,
            final(self).count == old(self).count,
            final(self).wf(res@),
            old(self).it >= old(self).count ==> r is None && final(self).it == old(self).it,
            old(self).it < old(self).count ==> (r matches Some(e) && e.image_ == spec_dir_entry(
                res@,
                old(self).offset_ as int,
                old(self).it as int,
            ) && final(self).it == old(self).it + 1),
    {
        if self.it >= self.count {
            return None;
        }
        let _n: usize = res.len();
        let e = read_resource_directory_entry(
            res.data,
            (self.offset_ as usize) + 16 + 8 * (self.it as usize),
        );
        self.it = self.it + 1;
        Some(ResourceDirectoryEntry { image_: e })
    }
}

/// A resource data entry: its record and the entry it came from.
pub struct ResourceDataEntry {
    pub entry_: ImageResourceDirectoryEntry,
    pub image_: ImageResourceDataEntry,
}

impl ResourceDataEntry {
    /// The directory entry this data entry came from.
    pub fn entry(&self) -> (r: ResourceDirectoryEntry)
        ensures
            r.image_ == self.entry_,
    {
        ResourceDirectoryEntry { image_: self.entry_ }
    }

    /// The underlying data entry record.
    pub fn image(&self) -> (r: ImageResourceDataEntry)
        ensures
            r == self.image_,
    {
        self.image_
    }

    /// The raw bytes of the resource.  `OffsetToData` is an image-absolute
    /// Rva: the resource directory's own Rva is subtracted first.  Absent
    /// when the adjusted range escapes the resource slice.
    pub fn data<'a>(&self, res: &Resources<'a>) -> (r: Option<&'a [u8]>)
        ensures
            ({
                let start = self.image_.OffsetToData - res.spec_vbase();
                if res.spec_vbase() <= self.image_.OffsetToData && start + self.image_.Size
                    <= res@.len() {
                    r matches Some(s) && s@ == res@.subrange(start, start + self.image_.Size)
                } else {
                    r is None
                }
            }),
    {
        let n: usize = res.len();
        if self.image_.OffsetToData < res.vbase {
            return None;
        }
        let start = self.image_.OffsetToData - res.vbase;
        if (start as u64) + (self.image_.Size as u64) > n as u64 {
            return None;
        }
        Some(res.read_slice(start as usize, self.image_.Size as usize))
    }
}

} // verus!
