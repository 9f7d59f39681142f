//! PE exports: the export directory and its lookups.
//!
//! The export directory holds three parallel tables: the export address
//! table (one Rva per ordinal slot), the name-pointer table and the
//! name-ordinal index table.  A symbol whose Rva lies inside the export
//! data directory's own extent is a forwarder string rather than an
//! address.
//!
//! The decoder borrows nothing: a handle holds the two records read at
//! acquisition, and every lookup takes the view it was read from.

use vstd::prelude::*;
use crate::bytes::le16;
use crate::bytes::le32;
use crate::bytes::has_nul;
use crate::bytes::cstr_at;
use crate::bytes::read_cstr;
use crate::bytes::bytes_eq;
use crate::image::ImageDataDirectory;
use crate::image::ImageExportDirectory;
use crate::image::spec_data_directory;
use crate::image::spec_export_directory;
use crate::image::read_export_directory;
use crate::image::EXPORT_DIRECTORY_SIZE;
use crate::image::IMAGE_DIRECTORY_ENTRY_EXPORT;
use super::image::Rva;
use super::peview::PeView;
use super::peview::spec_num_dirs;
use super::peview::spec_dirs_off;

verus! {

/// Spec-level value of an exported symbol.
pub enum SpecExport {
    Absent,
    Symbol(u32),
    Forward(Seq<u8>),
}

/// An exported symbol.
pub enum Export {
    /// The symbol does not exist: a gap in the export address table.
    Absent,
    /// A standard exported symbol: an Rva into the image.
    Symbol(Rva),
    /// Forwarded to another library; the string reads `DllName.ExportName`.
    Forward(Vec<u8>),
}

impl View for Export {
    type V = SpecExport;

    open spec fn view(&self) -> SpecExport {
        match self {
            Export::Absent => SpecExport::Absent,
            Export::Symbol(rva) => SpecExport::Symbol(*rva),
            Export::Forward(s) => SpecExport::Forward(s@),
        }
    }
}

/// Spec-level value of a `NamedExport`.
pub struct SpecNamedExport {
    pub ord: u16,
    pub symbol: SpecExport,
    pub name: Option<Seq<u8>>,
}

/// Full symbol information: its ordinal, its value, and the name it was
/// exported under, if any.
pub struct NamedExport {
    /// Ordinal of this symbol.
    pub ord: u16,
    /// Resolved symbol value.
    pub symbol: Export,
    /// Name by which this symbol was exported; nothing for an ordinal-only
    /// export.
    pub name: Option<Vec<u8>>,
}

impl View for NamedExport {
    type V = SpecNamedExport;

    open spec fn view(&self) -> SpecNamedExport {
        SpecNamedExport {
            ord: self.ord,
            symbol: self.symbol@,
            name: match self.name {
                Some(ref v) => Some(v@),
                None => None,
            },
        }
    }
}

/// The export address table of `e`: `NumberOfFunctions` Rvas.
pub open spec fn spec_functions(b: Seq<u8>, e: ImageExportDirectory) -> Seq<u32> {
    Seq::new(e.NumberOfFunctions as nat, |i: int| le32(b, e.AddressOfFunctions + 4 * i))
}

/// The name-pointer table of `e`: `NumberOfNames` Rvas of NUL-terminated
/// strings.
pub open spec fn spec_name_rvas(b: Seq<u8>, e: ImageExportDirectory) -> Seq<u32> {
    Seq::new(e.NumberOfNames as nat, |i: int| le32(b, e.AddressOfNames + 4 * i))
}

/// The name-ordinal index table of `e`: for each name, an index into the
/// export address table.
pub open spec fn spec_name_indices(b: Seq<u8>, e: ImageExportDirectory) -> Seq<u16> {
    Seq::new(e.NumberOfNames as nat, |i: int| le16(b, e.AddressOfNameOrdinals + 2 * i))
}

/// Exports directory handle: the data-directory slot and the export
/// directory record read from it.
pub struct ExportDirectory {
    pub datadir_: ImageDataDirectory,
    pub image_: ImageExportDirectory,
}

impl ExportDirectory {
    /// The handle was acquired from the export data-directory slot of `b`.
    pub open spec fn wf(self, b: Seq<u8>) -> bool {
        &&& spec_num_dirs(b) > 0
        &&& self.datadir_ == spec_data_directory(b, spec_dirs_off(b))
        &&& self.datadir_.VirtualAddress != 0
        &&& self.datadir_.VirtualAddress + EXPORT_DIRECTORY_SIZE <= b.len()
        &&& self.image_ == spec_export_directory(b, self.datadir_.VirtualAddress as int)
    }

    /// The export address table lies within the buffer.
    pub open spec fn functions_wf(self, b: Seq<u8>) -> bool {
        self.image_.AddressOfFunctions != 0 ==> self.image_.AddressOfFunctions % 4 == 0
            && self.image_.AddressOfFunctions + 4 * self.image_.NumberOfFunctions <= b.len()
    }

    /// Every non-gap entry of the export address table that lies in the
    /// forwarder range points at a terminated string.
    pub open spec fn forwards_wf(self, b: Seq<u8>) -> bool {
        forall|i: int|
            0 <= i < spec_functions(b, self.image_).len() && #[trigger] spec_functions(
                b,
                self.image_,
            )[i] != 0 && self.spec_is_forwarded(spec_functions(b, self.image_)[i]) ==> has_nul(
                b,
                spec_functions(b, self.image_)[i] as int,
            )
    }

    /// The name tables lie within the buffer, and -- when all three tables
    /// exist -- every name pointer is non-zero and points at a terminated
    /// string.
    pub open spec fn names_wf(self, b: Seq<u8>) -> bool {
        &&& self.image_.AddressOfNames != 0 ==> self.image_.AddressOfNames % 4 == 0
            && self.image_.AddressOfNames + 4 * self.image_.NumberOfNames <= b.len()
        &&& self.image_.AddressOfNameOrdinals != 0 ==> self.image_.AddressOfNameOrdinals % 2 == 0
            && self.image_.AddressOfNameOrdinals + 2 * self.image_.NumberOfNames <= b.len()
        &&& self.image_.AddressOfFunctions != 0 && self.image_.AddressOfNames != 0
            && self.image_.AddressOfNameOrdinals != 0 ==> forall|i: int|
            0 <= i < spec_name_rvas(b, self.image_).len() ==> #[trigger] spec_name_rvas(
                b,
                self.image_,
            )[i] != 0 && has_nul(b, spec_name_rvas(b, self.image_)[i] as int)
    }

    /// `rva` lies within the export data directory's own extent, which is
    /// what marks a forwarded export.
    pub open spec fn spec_is_forwarded(self, rva: u32) -> bool {
        self.datadir_.VirtualAddress <= rva < self.datadir_.VirtualAddress + self.datadir_.Size
    }

    /// The symbol a non-gap table entry resolves to: a forwarder string
    /// when its Rva lies in the directory's extent, the Rva itself
    /// otherwise.
    pub open spec fn spec_symbol_from_rva(self, b: Seq<u8>, rva: u32) -> SpecExport {
        if self.spec_is_forwarded(rva) {
            SpecExport::Forward(cstr_at(b, rva as int))
        } else {
            SpecExport::Symbol(rva)
        }
    }

    /// The ordinal base, masked to 16 bits.
    pub open spec fn spec_base(self) -> u16 {
        (self.image_.Base % 0x10000) as u16
    }

    /// Lookup by ordinal: index `ord - Base` of the export address table;
    /// absent below the base, past the table, or on a gap.
    pub open spec fn spec_symbol_by_ordinal(self, b: Seq<u8>, ord: u16) -> SpecExport {
        let funcs = spec_functions(b, self.image_);
        if self.image_.AddressOfFunctions == 0 {
            SpecExport::Absent
        } else if ord < self.spec_base() {
            SpecExport::Absent
        } else if ord - self.spec_base() >= funcs.len() {
            SpecExport::Absent
        } else if funcs[ord - self.spec_base()] == 0 {
            SpecExport::Absent
        } else {
            self.spec_symbol_from_rva(b, funcs[ord - self.spec_base()])
        }
    }

    /// Linear scan of the name table from position `i` on.
    pub open spec fn spec_symbol_by_name_from(self, b: Seq<u8>, name: Seq<u8>, i: int) -> SpecExport
        decreases spec_name_rvas(b, self.image_).len() - i,
    {
        let names = spec_name_rvas(b, self.image_);
        let indices = spec_name_indices(b, self.image_);
        let funcs = spec_functions(b, self.image_);
        if i < 0 || i >= names.len() {
            SpecExport::Absent
        } else if cstr_at(b, names[i] as int) == name {
            if indices[i] < funcs.len() && funcs[indices[i] as int] != 0 {
                self.spec_symbol_from_rva(b, funcs[indices[i] as int])
            } else {
                SpecExport::Absent
            }
        } else {
            self.spec_symbol_by_name_from(b, name, i + 1)
        }
    }

    /// Lookup by name: the first name-table entry whose string equals
    /// `name` resolves through the name-ordinal index table; absent when no
    /// name matches, when a table is missing, or on a corrupt index.
    pub open spec fn spec_symbol_by_name(self, b: Seq<u8>, name: Seq<u8>) -> SpecExport {
        if self.image_.AddressOfFunctions != 0 && self.image_.AddressOfNames != 0
            && self.image_.AddressOfNameOrdinals != 0 {
            self.spec_symbol_by_name_from(b, name, 0)
        } else {
            SpecExport::Absent
        }
    }

    /// The name of the export whose table index is `idx`: the first name
    /// whose index entry equals `idx`, scanning from position `i` on.
    pub open spec fn spec_name_of_index_from(self, b: Seq<u8>, idx: u16, i: int) -> Option<Seq<u8>>
        decreases spec_name_rvas(b, self.image_).len() - i,
    {
        let names = spec_name_rvas(b, self.image_);
        let indices = spec_name_indices(b, self.image_);
        if i < 0 || i >= names.len() {
            None
        } else if indices[i] == idx {
            Some(cstr_at(b, names[i] as int))
        } else {
            self.spec_name_of_index_from(b, idx, i + 1)
        }
    }

    /// Lookup by ordinal together with the export's name, if it has one.
    pub open spec fn spec_name_from_ordinal(self, b: Seq<u8>, ord: u16) -> SpecNamedExport {
        let funcs = spec_functions(b, self.image_);
        if self.image_.AddressOfFunctions == 0 || ord < self.spec_base() || ord - self.spec_base()
            >= funcs.len() || funcs[ord - self.spec_base()] == 0 {
            SpecNamedExport { ord, symbol: SpecExport::Absent, name: None }
        } else {
            SpecNamedExport {
                ord,
                symbol: self.spec_symbol_from_rva(b, funcs[ord - self.spec_base()]),
                name: if self.image_.AddressOfNames != 0 && self.image_.AddressOfNameOrdinals != 0 {
                    self.spec_name_of_index_from(b, (ord - self.spec_base()) as u16, 0)
                } else {
                    None
                },
            }
        }
    }
}

impl<'a> PeView<'a> {
    /// The export directory, present iff the export data-directory slot
    /// exists and holds a non-zero Rva.  The directory record is read once
    /// here; the caller vouches that it lies within the buffer.
    pub fn exports(&self) -> (r: Option<ExportDirectory>)
        requires
            spec_num_dirs(self@) > 0 && spec_data_directory(
                self@,
                spec_dirs_off(self@),
            ).VirtualAddress != 0 ==> spec_data_directory(self@, spec_dirs_off(self@)).VirtualAddress
                + EXPORT_DIRECTORY_SIZE <= self@.len(),
        ensures
            r is Some <==> spec_num_dirs(self@) > 0 && spec_data_directory(
                self@,
                spec_dirs_off(self@),
            ).VirtualAddress != 0,
            r matches Some(e) ==> e.wf(self@),
    {
        let dirs = self.data_directory();
        if dirs.len() <= IMAGE_DIRECTORY_ENTRY_EXPORT {
            return None;
        }
        let dd = dirs[IMAGE_DIRECTORY_ENTRY_EXPORT];
        if dd.VirtualAddress == 0 {
            return None;
        }
        let img = self.image();
        let e = read_export_directory(img, dd.VirtualAddress as usize);
        Some(ExportDirectory { datadir_: dd, image_: e })
    }
}

impl ExportDirectory {
    /// The underlying export directory record.
    pub fn image(&self) -> (r: ImageExportDirectory)
        ensures
            r == self.image_,
    {
        self.image_
    }

    /// The name of the exporting module.
    pub fn name<'a>(&self, view: &PeView<'a>) -> (r: &'a [u8])
        requires
            self.image_.Name != 0,
            has_nul(view@, self.image_.Name as int),
        ensures
            r@ == cstr_at(view@, self.image_.Name as int),
    {
        let img = view.image();
        read_cstr(img, self.image_.Name as usize)
    }

    /// The export address table; nothing when the record declares none.
    pub fn functions(&self, view: &PeView<'_>) -> (r: Option<Vec<Rva>>)
        requires
            self.functions_wf(view@),
        ensures
            r is Some <==> self.image_.AddressOfFunctions != 0,
            r matches Some(v) ==> v@ == spec_functions(view@, self.image_),
    {
        if self.image_.AddressOfFunctions == 0 {
            return None;
        }
        let img = view.image();
        let n: usize = img.len();
        let count = self.image_.NumberOfFunctions;
        let base = self.image_.AddressOfFunctions;
        let mut out: Vec<Rva> = Vec::new();
        let mut i: u32 = 0;
        while i < count
            invariant
                0 <= i <= count,
                n == view@.len(),
                img@ == view@,
                count == self.image_.NumberOfFunctions,
                base == self.image_.AddressOfFunctions,
                base + 4 * count <= n,
                out@.len() == i,
                forall|j: int| 0 <= j < i ==> out@[j] == spec_functions(view@, self.image_)[j],
            decreases count - i,
        {
            out.push(crate::bytes::read_u32(img, (base as usize) + 4 * (i as usize)));
            i = i + 1;
        }
        proof {
            assert(out@ =~= spec_functions(view@, self.image_));
        }
        Some(out)
    }

    /// The name-pointer table; nothing when the record declares none.
    pub fn names(&self, view: &PeView<'_>) -> (r: Option<Vec<Rva>>)
        requires
            self.names_wf(view@),
        ensures
            r is Some <==> self.image_.AddressOfNames != 0,
            r matches Some(v) ==> v@ == spec_name_rvas(view@, self.image_),
    {
        if self.image_.AddressOfNames == 0 {
            return None;
        }
        let img = view.image();
        let n: usize = img.len();
        let count = self.image_.NumberOfNames;
        let base = self.image_.AddressOfNames;
        let mut out: Vec<Rva> = Vec::new();
        let mut i: u32 = 0;
        while i < count
            invariant
                0 <= i <= count,
                n == view@.len(),
                img@ == view@,
                count == self.image_.NumberOfNames,
                base == self.image_.AddressOfNames,
                base + 4 * count <= n,
                out@.len() == i,
                forall|j: int| 0 <= j < i ==> out@[j] == spec_name_rvas(view@, self.image_)[j],
            decreases count - i,
        {
            out.push(crate::bytes::read_u32(img, (base as usize) + 4 * (i as usize)));
            i = i + 1;
        }
        proof {
            assert(out@ =~= spec_name_rvas(view@, self.image_));
        }
        Some(out)
    }

    /// The name-ordinal index table; nothing when the record declares
    /// none.  Each value is an index into the export address table, not an
    /// ordinal.
    pub fn name_indices(&self, view: &PeView<'_>) -> (r: Option<Vec<u16>>)
        requires
            self.names_wf(view@),
        ensures
            r is Some <==> self.image_.AddressOfNameOrdinals != 0,
            r matches Some(v) ==> v@ == spec_name_indices(view@, self.image_),
    {
        if self.image_.AddressOfNameOrdinals == 0 {
            return None;
        }
        let img = view.image();
        let n: usize = img.len();
        let count = self.image_.NumberOfNames;
        let base = self.image_.AddressOfNameOrdinals;
        let mut out: Vec<u16> = Vec::new();
        let mut i: u32 = 0;
        while i < count
            invariant
                0 <= i <= count,
                n == view@.len(),
                img@ == view@,
                count == self.image_.NumberOfNames,
                base == self.image_.AddressOfNameOrdinals,
                base + 2 * count <= n,
                out@.len() == i,
                forall|j: int| 0 <= j < i ==> out@[j] == spec_name_indices(view@, self.image_)[j],
            decreases count - i,
        {
            out.push(crate::bytes::read_u16(img, (base as usize) + 2 * (i as usize)));
            i = i + 1;
        }
        proof {
            assert(out@ =~= spec_name_indices(view@, self.image_));
        }
        Some(out)
    }

    /// Whether `rva` is a forwarded symbol: it lies within the export data
    /// directory's own extent.
    pub fn is_forwarded(&self, rva: Rva) -> (r: bool)
        ensures
            r == self.spec_is_forwarded(rva),
    {
        self.datadir_.VirtualAddress <= rva && (rva as u64) < self.datadir_.VirtualAddress as u64
            + self.datadir_.Size as u64
    }

    /// Resolves a non-gap export-address-table entry: the forwarder string
    /// when the Rva lies in the directory's extent, the symbol Rva
    /// otherwise.
    pub fn symbol_from_rva<'a>(&self, view: &PeView<'a>, rva: Rva) -> (r: Export)
        requires
            self.spec_is_forwarded(rva) ==> has_nul(view@, rva as int),
        ensures
            r@ == self.spec_symbol_from_rva(view@, rva),
    {
        if self.is_forwarded(rva) {
            let img = view.image();
            let s = read_cstr(img, rva as usize);
            Export::Forward(vstd::slice::slice_to_vec(s))
        } else {
            Export::Symbol(rva)
        }
    }

    /// Finds a symbol by its ordinal.
    pub fn symbol_by_ordinal(&self, view: &PeView<'_>, ord: u16) -> (r: Export)
        requires
            self.functions_wf(view@),
            self.forwards_wf(view@),
        ensures
            r@ == self.spec_symbol_by_ordinal(view@, ord),
    {
        if self.image_.AddressOfFunctions == 0 {
            return Export::Absent;
        }
        let base = (self.image_.Base % 0x10000) as u16;
        if ord < base {
            return Export::Absent;
        }
        let idx = (ord - base) as u32;
        if idx >= self.image_.NumberOfFunctions {
            return Export::Absent;
        }
        let img = view.image();
        let _n: usize = img.len();
        let sym_rva = crate::bytes::read_u32(
            img,
            (self.image_.AddressOfFunctions as usize) + 4 * (idx as usize),
        );
        proof {
            assert(sym_rva == spec_functions(view@, self.image_)[idx as int]);
        }
        if sym_rva == 0 {
            return Export::Absent;
        }
        self.symbol_from_rva(view, sym_rva)
    }

    /// Finds a symbol by its name: the first matching name-table entry
    /// resolves through the name-ordinal index table.
    pub fn symbol_by_name(&self, view: &PeView<'_>, name: &[u8]) -> (r: Export)
        requires
            self.functions_wf(view@),
            self.names_wf(view@),
            self.forwards_wf(view@),
        ensures
            r@ == self.spec_symbol_by_name(view@, name@),
    {
        if self.image_.AddressOfFunctions == 0 || self.image_.AddressOfNames == 0
            || self.image_.AddressOfNameOrdinals == 0 {
            return Export::Absent;
        }
        let img = view.image();
        let n: usize = img.len();
        let count = self.image_.NumberOfNames;
        let mut i: u32 = 0;
        while i < count
            invariant
                0 <= i <= count,
                n == view@.len(),
                img@ == view@,
                count == self.image_.NumberOfNames,
                self.image_.AddressOfFunctions != 0,
                self.image_.AddressOfNames != 0,
                self.image_.AddressOfNameOrdinals != 0,
                self.functions_wf(view@),
                self.names_wf(view@),
                self.forwards_wf(view@),
                self.spec_symbol_by_name_from(view@, name@, 0) == self.spec_symbol_by_name_from(
                    view@,
                    name@,
                    i as int,
                ),
            decreases count - i,
        {
            let name_rva = crate::bytes::read_u32(
                img,
                (self.image_.AddressOfNames as usize) + 4 * (i as usize),
            );
            proof {
                assert(name_rva == spec_name_rvas(view@, self.image_)[i as int]);
                assert(has_nul(view@, name_rva as int));
            }
            let name_it = read_cstr(img, name_rva as usize);
            if bytes_eq(name_it, name) {
                let k = crate::bytes::read_u16(
                    img,
                    (self.image_.AddressOfNameOrdinals as usize) + 2 * (i as usize),
                );
                proof {
                    assert(k == spec_name_indices(view@, self.image_)[i as int]);
                }
                if (k as u32) < self.image_.NumberOfFunctions {
                    let sym_rva = crate::bytes::read_u32(
                        img,
                        (self.image_.AddressOfFunctions as usize) + 4 * (k as usize),
                    );
                    proof {
                        assert(sym_rva == spec_functions(view@, self.image_)[k as int]);
                    }
                    if sym_rva != 0 {
                        return self.symbol_from_rva(view, sym_rva);
                    }
                }
                return Export::Absent;
            }
            i = i + 1;
        }
        Export::Absent
    }

    /// Finds the name for an export by its ordinal: the symbol as
    /// `symbol_by_ordinal` resolves it, plus the first name-table entry
    /// carrying the export's index, if any.
    pub fn name_from_ordinal(&self, view: &PeView<'_>, ord: u16) -> (r: NamedExport)
        requires
            self.functions_wf(view@),
            self.names_wf(view@),
            self.forwards_wf(view@),
        ensures
            r@ == self.spec_name_from_ordinal(view@, ord),
    {
        if self.image_.AddressOfFunctions == 0 {
            return NamedExport { ord, symbol: Export::Absent, name: None };
        }
        let base = (self.image_.Base % 0x10000) as u16;
        if ord < base {
            return NamedExport { ord, symbol: Export::Absent, name: None };
        }
        let idx = ord - base;
        if (idx as u32) >= self.image_.NumberOfFunctions {
            return NamedExport { ord, symbol: Export::Absent, name: None };
        }
        let img = view.image();
        let n: usize = img.len();
        let sym_rva = crate::bytes::read_u32(
            img,
            (self.image_.AddressOfFunctions as usize) + 4 * (idx as usize),
        );
        proof {
            assert(sym_rva == spec_functions(view@, self.image_)[idx as int]);
        }
        if sym_rva == 0 {
            return NamedExport { ord, symbol: Export::Absent, name: None };
        }
        let symbol = self.symbol_from_rva(view, sym_rva);
        if self.image_.AddressOfNames == 0 || self.image_.AddressOfNameOrdinals == 0 {
            return NamedExport { ord, symbol, name: None };
        }
        let count = self.image_.NumberOfNames;
        let mut i: u32 = 0;
        while i < count
            invariant
                0 <= i <= count,
                n == view@.len(),
                img@ == view@,
                count == self.image_.NumberOfNames,
                self.image_.AddressOfFunctions != 0,
                self.image_.AddressOfNames != 0,
                self.image_.AddressOfNameOrdinals != 0,
                self.names_wf(view@),
                ord >= self.spec_base(),
                idx == ord - self.spec_base(),
                (idx as int) < spec_functions(view@, self.image_).len(),
                spec_functions(view@, self.image_)[idx as int] != 0,
                symbol@ == self.spec_symbol_from_rva(
                    view@,
                    spec_functions(view@, self.image_)[idx as int],
                ),
                self.spec_name_of_index_from(view@, idx, 0) == self.spec_name_of_index_from(
                    view@,
                    idx,
                    i as int,
                ),
            decreases count - i,
        {
            let k = crate::bytes::read_u16(
                img,
                (self.image_.AddressOfNameOrdinals as usize) + 2 * (i as usize),
            );
            proof {
                assert(k == spec_name_indices(view@, self.image_)[i as int]);
            }
            if k == idx {
                let name_rva = crate::bytes::read_u32(
                    img,
                    (self.image_.AddressOfNames as usize) + 4 * (i as usize),
                );
                proof {
                    assert(name_rva == spec_name_rvas(view@, self.image_)[i as int]);
                    assert(has_nul(view@, name_rva as int));
                }
                let s = read_cstr(img, name_rva as usize);
                return NamedExport { ord, symbol, name: Some(vstd::slice::slice_to_vec(s)) };
            }
            i = i + 1;
        }
        NamedExport { ord, symbol, name: None }
    }

    /// Starts iteration over the ordinals of the exports.
    pub fn iter(&self) -> (r: ExportIterator)
        ensures
            r.it == 0,
    {
        ExportIterator { it: 0 }
    }
}

/// Iterates the ordinals of the exports: `Base`, `Base + 1`, ...,
/// `Base + NumberOfFunctions - 1`.  Consumers may skip the ordinals that
/// resolve to nothing.
pub struct ExportIterator {
    pub it: u32,
}

impl ExportIterator {
    /// The next ordinal.  The ordinals must fit in 16 bits.
    pub fn next(&mut self, dir: &ExportDirectory) -> (r: Option<u16>)
        requires
            dir.spec_base() + dir.image_.NumberOfFunctions <= 0x10000,
        ensures
            old(self).it >= dir.image_.NumberOfFunctions ==> r is None && final(self).it == old(
                self,
            ).it,
            old(self).it < dir.image_.NumberOfFunctions ==> r == Some(
                (dir.spec_base() + old(self).it) as u16,
            ) && final(self).it == old(self).it + 1,
    {
        if self.it >= dir.image_.NumberOfFunctions {
            None
        } else {
            let ord = ((dir.image_.Base % 0x10000) + self.it) as u16;
            self.it = self.it + 1;
            Some(ord)
        }
    }
}

proof fn lemma_symbol_by_name_skip(dir: ExportDirectory, b: Seq<u8>, name: Seq<u8>, k: int, i: int)
    requires
        0 <= k <= i <= spec_name_rvas(b, dir.image_).len(),
        forall|j: int|
            k <= j < i ==> cstr_at(b, #[trigger] spec_name_rvas(b, dir.image_)[j] as int) != name,
    ensures
        dir.spec_symbol_by_name_from(b, name, k) == dir.spec_symbol_by_name_from(b, name, i),
    decreases i - k,
{
    if k < i {
        lemma_symbol_by_name_skip(dir, b, name, k + 1, i);
    }
}

proof fn lemma_name_of_index_skip(dir: ExportDirectory, b: Seq<u8>, idx: u16, k: int, i: int)
    requires
        0 <= k <= i <= spec_name_rvas(b, dir.image_).len(),
        forall|j: int| k <= j < i ==> #[trigger] spec_name_indices(b, dir.image_)[j] != idx,
    ensures
        dir.spec_name_of_index_from(b, idx, k) == dir.spec_name_of_index_from(b, idx, i),
    decreases i - k,
{
    if k < i {
        lemma_name_of_index_skip(dir, b, idx, k + 1, i);
    }
}

/// Lookups by name and by ordinal agree.  Take a name-table position `i`
/// whose string's first occurrence this is, whose index entry is the first
/// to carry its value, lies within the export address table, and names a
/// non-gap entry; and let `ord` be the ordinal formed from that index.
/// Then lookup by the string finds exactly the symbol that position
/// resolves to, that symbol is not absent, and `name_from_ordinal(ord)`
/// yields the same symbol and surfaces the string.
pub proof fn lemma_name_lookup_consistent(dir: ExportDirectory, b: Seq<u8>, i: int)
    requires
        dir.image_.AddressOfFunctions != 0,
        dir.image_.AddressOfNames != 0,
        dir.image_.AddressOfNameOrdinals != 0,
        0 <= i < spec_name_rvas(b, dir.image_).len(),
        forall|j: int|
            0 <= j < i ==> cstr_at(b, #[trigger] spec_name_rvas(b, dir.image_)[j] as int)
                != cstr_at(b, spec_name_rvas(b, dir.image_)[i] as int),
        forall|j: int|
            0 <= j < i ==> #[trigger] spec_name_indices(b, dir.image_)[j] != spec_name_indices(
                b,
                dir.image_,
            )[i],
        spec_name_indices(b, dir.image_)[i] < spec_functions(b, dir.image_).len(),
        spec_functions(b, dir.image_)[spec_name_indices(b, dir.image_)[i] as int] != 0,
        dir.spec_base() + spec_name_indices(b, dir.image_)[i] <= 0xFFFF,
    ensures
        ({
            let n = cstr_at(b, spec_name_rvas(b, dir.image_)[i] as int);
            let idx = spec_name_indices(b, dir.image_)[i];
            let ord = (dir.spec_base() + idx) as u16;
            &&& dir.spec_symbol_by_name(b, n) == dir.spec_symbol_from_rva(
                b,
                spec_functions(b, dir.image_)[idx as int],
            )
            &&& !(dir.spec_symbol_by_name(b, n) is Absent)
            &&& dir.spec_name_from_ordinal(b, ord).symbol == dir.spec_symbol_by_name(b, n)
            &&& dir.spec_name_from_ordinal(b, ord).name == Some(n)
        }),
{
    let n = cstr_at(b, spec_name_rvas(b, dir.image_)[i] as int);
    let idx = spec_name_indices(b, dir.image_)[i];
    let ord = (dir.spec_base() + idx) as u16;
    lemma_symbol_by_name_skip(dir, b, n, 0, i);
    assert(dir.spec_symbol_by_name_from(b, n, i) == dir.spec_symbol_from_rva(
        b,
        spec_functions(b, dir.image_)[idx as int],
    ));
    lemma_name_of_index_skip(dir, b, idx, 0, i);
    assert(ord - dir.spec_base() == idx);
    assert(dir.spec_name_of_index_from(b, idx, i) == Some(n));
}

/// Forwarded-export detection round trip: a non-gap table entry resolves
/// to the forward variant exactly when `is_forwarded` holds of its Rva,
/// and to a plain symbol exactly otherwise.
pub proof fn lemma_forward_detection(dir: ExportDirectory, b: Seq<u8>, rva: u32)
    ensures
        dir.spec_symbol_from_rva(b, rva) is Forward <==> dir.spec_is_forwarded(rva),
        dir.spec_symbol_from_rva(b, rva) is Symbol <==> !dir.spec_is_forwarded(rva),
{
}

} // verus!
