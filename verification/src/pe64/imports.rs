//! PE imports, 64-bit flavour: the import descriptor table and its thunk
//! lists.
//!
//! As in the 32-bit flavour, the directory is a sentinel-closed run of
//! descriptors, each pointing at the Import Name Table and the Import
//! Address Table.  Here a thunk is a 64-bit word and the ordinal flag is
//! bit 63; a by-name thunk's low 32 bits are the Rva of a 16-bit hint
//! followed by a NUL-terminated symbol name.

use vstd::prelude::*;
use vstd::slice::slice_to_vec;
use crate::bytes::le16;
use crate::bytes::le64;
use crate::bytes::has_nul;
use crate::bytes::cstr_at;
use crate::bytes::read_cstr;
use crate::image::ImageDataDirectory;
use crate::image::ImageImportDescriptor;
use crate::image::spec_data_directory;
use crate::image::spec_import_descriptor;
use crate::image::read_import_descriptor;
use crate::image::IMAGE_DIRECTORY_ENTRY_IMPORT;
use super::image::Rva;
use super::image::Va;
use super::peview::PeView;
use super::peview::spec_num_dirs;
use super::peview::spec_dirs_off;

verus! {

/// Spec-level value of an imported symbol.
pub enum SpecImportedSymbol {
    ByName { hint: u16, name: Seq<u8> },
    ByOrdinal { ord: u16 },
}

/// An imported symbol.
pub enum ImportedSymbol {
    /// Imported by name.  The hint is an index into the exporting
    /// library's name table that may hold the symbol.
    ByName { hint: u16, name: Vec<u8> },
    /// Imported by ordinal.
    ByOrdinal { ord: u16 },
}

impl View for ImportedSymbol {
    type V = SpecImportedSymbol;

    open spec fn view(&self) -> SpecImportedSymbol {
        match self {
            ImportedSymbol::ByName { hint, name } => SpecImportedSymbol::ByName {
                hint: *hint,
                name: name@,
            },
            ImportedSymbol::ByOrdinal { ord } => SpecImportedSymbol::ByOrdinal { ord: *ord },
        }
    }
}

/// An all-zero import descriptor: the table's terminator.
pub open spec fn spec_is_sentinel(d: ImageImportDescriptor) -> bool {
    &&& d.OriginalFirstThunk == 0
    &&& d.TimeDateStamp == 0
    &&& d.ForwarderChain == 0
    &&& d.Name == 0
    &&& d.FirstThunk == 0
}

/// The descriptor run starting at `rva` is well formed: descriptor after
/// descriptor lies within the buffer until the sentinel.
pub open spec fn import_table_wf(b: Seq<u8>, rva: int) -> bool
    decreases b.len() - rva,
{
    if rva <= 0 || rva + 20 > b.len() || rva + 20 > 0xFFFF_FFFF {
        false
    } else if spec_is_sentinel(spec_import_descriptor(b, rva)) {
        true
    } else {
        import_table_wf(b, rva + 20)
    }
}

/// The Rva held in the low 32 bits of a by-name thunk.
pub open spec fn spec_thunk_rva(va: u64) -> u32 {
    (va % 0x1_0000_0000) as u32
}

/// The Import Name Table chain starting at `rva` is well formed: each
/// 8-aligned thunk lies within the buffer, and each by-name thunk points
/// at a readable hint and a terminated name, until the zero thunk.
pub open spec fn int_wf(b: Seq<u8>, rva: int) -> bool
    decreases b.len() - rva,
{
    if rva <= 0 || rva % 8 != 0 || rva + 8 > b.len() || rva + 8 > 0xFFFF_FFFF {
        false
    } else {
        let va = le64(b, rva);
        if va == 0 {
            true
        } else if va < 0x8000_0000_0000_0000 {
            &&& spec_thunk_rva(va) != 0
            &&& spec_thunk_rva(va) % 2 == 0
            &&& spec_thunk_rva(va) + 2 <= b.len()
            &&& has_nul(b, spec_thunk_rva(va) + 2)
            &&& int_wf(b, rva + 8)
        } else {
            int_wf(b, rva + 8)
        }
    }
}

/// The Import Address Table chain starting at `rva` is well formed: each
/// 8-aligned slot lies within the buffer, until the zero slot.
pub open spec fn iat_wf(b: Seq<u8>, rva: int) -> bool
    decreases b.len() - rva,
{
    if rva <= 0 || rva % 8 != 0 || rva + 8 > b.len() || rva + 8 > 0xFFFF_FFFF {
        false
    } else if le64(b, rva) == 0 {
        true
    } else {
        iat_wf(b, rva + 8)
    }
}

/// What a non-zero Import Name Table thunk names: an ordinal when bit 63
/// is set, a hint and name otherwise.
pub open spec fn spec_int_symbol(b: Seq<u8>, va: u64) -> SpecImportedSymbol {
    if va >= 0x8000_0000_0000_0000 {
        SpecImportedSymbol::ByOrdinal { ord: (va % 0x1_0000) as u16 }
    } else {
        SpecImportedSymbol::ByName {
            hint: le16(b, spec_thunk_rva(va) as int),
            name: cstr_at(b, spec_thunk_rva(va) + 2),
        }
    }
}

/// Imports directory handle: the import data-directory slot.
pub struct ImportDirectory {
    pub datadir_: ImageDataDirectory,
}

impl<'a> PeView<'a> {
    /// The import directory, present iff the import data-directory slot
    /// exists and holds a non-zero Rva.
    pub fn imports(&self) -> (r: Option<ImportDirectory>)
        ensures
            r is Some <==> spec_num_dirs(self@) > IMAGE_DIRECTORY_ENTRY_IMPORT
                && spec_data_directory(
                self@,
                spec_dirs_off(self@) + 8 * IMAGE_DIRECTORY_ENTRY_IMPORT,
            ).VirtualAddress != 0,
            r matches Some(d) ==> d.datadir_ == spec_data_directory(
                self@,
                spec_dirs_off(self@) + 8 * IMAGE_DIRECTORY_ENTRY_IMPORT,
            ),
    {
        let dirs = self.data_directory();
        if dirs.len() <= IMAGE_DIRECTORY_ENTRY_IMPORT {
            return None;
        }
        let dd = dirs[IMAGE_DIRECTORY_ENTRY_IMPORT];
        if dd.VirtualAddress == 0 {
            return None;
        }
        Some(ImportDirectory { datadir_: dd })
    }
}

impl ImportDirectory {
    /// Starts iteration over the import descriptors.
    pub fn iter(&self) -> (r: ImportDescriptorIterator)
        ensures
            r.it == self.datadir_.VirtualAddress,
    {
        ImportDescriptorIterator { it: self.datadir_.VirtualAddress }
    }
}

/// Walks the import descriptor table up to its sentinel.
pub struct ImportDescriptorIterator {
    pub it: Rva,
}

impl ImportDescriptorIterator {
    /// The next import descriptor, or nothing at the sentinel.  The
    /// caller vouches that the remaining run is well formed.
    pub fn next(&mut self, view: &PeView<'_>) -> (r: Option<ImportDescriptor>)
        requires
            import_table_wf(view@, old(self).it as int),
        ensures
            spec_is_sentinel(spec_import_descriptor(view@, old(self).it as int)) ==> r is None
                && final(self).it == old(self).it,
            !spec_is_sentinel(spec_import_descriptor(view@, old(self).it as int)) ==> (
            r matches Some(desc) && desc.image_ == spec_import_descriptor(
                view@,
                old(self).it as int,
            ) && final(self).it == old(self).it + 20 && import_table_wf(
                view@,
                final(self).it as int,
            )),
    {
        let img = view.image();
        let _n: usize = img.len();
        let d = read_import_descriptor(img, self.it as usize);
        if d.OriginalFirstThunk == 0 && d.TimeDateStamp == 0 && d.ForwarderChain == 0 && d.Name == 0
            && d.FirstThunk == 0 {
            None
        } else {
            self.it = self.it + 20;
            Some(ImportDescriptor { image_: d })
        }
    }
}

/// One import descriptor: what one library is asked for.
pub struct ImportDescriptor {
    pub image_: ImageImportDescriptor,
}

impl ImportDescriptor {
    /// The underlying import descriptor record.
    pub fn image(&self) -> (r: ImageImportDescriptor)
        ensures
            r == self.image_,
    {
        self.image_
    }

    /// The name of the library imported from.
    pub fn dll_name<'a>(&self, view: &PeView<'a>) -> (r: &'a [u8])
        requires
            self.image_.Name != 0,
            has_nul(view@, self.image_.Name as int),
        ensures
            r@ == cstr_at(view@, self.image_.Name as int),
    {
        let img = view.image();
        read_cstr(img, self.image_.Name as usize)
    }

    /// Starts iteration over the Import Name Table.
    pub fn int_iter(&self) -> (r: ImportNameIterator)
        ensures
            r.it == self.image_.OriginalFirstThunk,
    {
        ImportNameIterator { it: self.image_.OriginalFirstThunk }
    }

    /// Starts iteration over the Import Address Table.
    pub fn iat_iter(&self) -> (r: ImportTableIterator)
        ensures
            r.it == self.image_.FirstThunk,
    {
        ImportTableIterator { it: self.image_.FirstThunk }
    }
}

/// Walks the Import Name Table of one descriptor.
pub struct ImportNameIterator {
    pub it: Rva,
}

impl ImportNameIterator {
    /// The next imported symbol, or nothing at the zero thunk.  The
    /// caller vouches that the remaining chain is well formed.
    pub fn next(&mut self, view: &PeView<'_>) -> (r: Option<ImportedSymbol>)
        requires
            int_wf(view@, old(self).it as int),
        ensures
            le64(view@, old(self).it as int) == 0 ==> r is None && final(self).it == old(self).it,
            le64(view@, old(self).it as int) != 0 ==> (r matches Some(sym) && sym@
                == spec_int_symbol(view@, le64(view@, old(self).it as int)) && final(self).it == old(
                self,
            ).it + 8 && int_wf(view@, final(self).it as int)),
    {
        let img = view.image();
        let _n: usize = img.len();
        let va = crate::bytes::read_u64(img, self.it as usize);
        if va == 0 {
            None
        } else if va >= 0x8000_0000_0000_0000 {
            self.it = self.it + 8;
            Some(ImportedSymbol::ByOrdinal { ord: (va % 0x1_0000) as u16 })
        } else {
            let target = (va % 0x1_0000_0000) as u32;
            let hint = crate::bytes::read_u16(img, target as usize);
            let name = read_cstr(img, (target as usize) + 2);
            self.it = self.it + 8;
            Some(ImportedSymbol::ByName { hint, name: slice_to_vec(name) })
        }
    }
}

/// Walks the Import Address Table of one descriptor, yielding the raw
/// slots: resolved addresses in a live mapping, copies of the Import Name
/// Table in a file mapped from disk.
pub struct ImportTableIterator {
    pub it: Rva,
}

impl ImportTableIterator {
    /// The next raw slot, or nothing at the zero slot.  The caller
    /// vouches that the remaining chain is well formed.
    pub fn next(&mut self, view: &PeView<'_>) -> (r: Option<Va>)
        requires
            iat_wf(view@, old(self).it as int),
        ensures
            le64(view@, old(self).it as int) == 0 ==> r is None && final(self).it == old(self).it,
            le64(view@, old(self).it as int) != 0 ==> (r == Some(
                le64(view@, old(self).it as int),
            ) && final(self).it == old(self).it + 8 && iat_wf(view@, final(self).it as int)),
    {
        let img = view.image();
        let _n: usize = img.len();
        let va = crate::bytes::read_u64(img, self.it as usize);
        if va == 0 {
            None
        } else {
            self.it = self.it + 8;
            Some(va)
        }
    }
}

} // verus!
