//! PE image structures as they are stored on disk, their documented
//! constants, and verified readers that decode each record from a byte
//! buffer.
//!
//! All records are packed little-endian layouts.  For every record there is
//! a spec-level description of the bytes (a constructor-style spec function,
//! or a predicate where the record holds an array) and an executable reader
//! proved to return exactly that description.

use vstd::prelude::*;
use crate::bytes::le16;
use crate::bytes::le32;
use crate::bytes::le64;
use crate::bytes::read_u16;
use crate::bytes::read_u32;
use crate::bytes::read_u64;

verus! {

pub const IMAGE_DOS_HEADER_MAGIC: u16 = 0x5A4D;

/// Size in bytes of the on-disk DOS header.
pub const DOS_HEADER_SIZE: usize = 64;

pub struct ImageDosHeader {
    pub e_magic: u16,
    pub e_cblp: u16,
    pub e_cp: u16,
    pub e_crlc: u16,
    pub e_cparhdr: u16,
    pub e_minalloc: u16,
    pub e_maxalloc: u16,
    pub e_ss: u16,
    pub e_sp: u16,
    pub e_csum: u16,
    pub e_ip: u16,
    pub e_cs: u16,
    pub e_lfarlc: u16,
    pub e_ovno: u16,
    pub e_res: [u16; 4],
    pub e_oemid: u16,
    pub e_oeminfo: u16,
    pub e_res2: [u16; 10],
    pub e_lfanew: u32,
}

/// The DOS header `h` is exactly what the bytes at `off` describe.
pub open spec fn dos_header_matches(b: Seq<u8>, off: int, h: ImageDosHeader) -> bool {
    &&& h.e_magic == le16(b, off)
    &&& h.e_cblp == le16(b, off + 2)
    &&& h.e_cp == le16(b, off + 4)
    &&& h.e_crlc == le16(b, off + 6)
    &&& h.e_cparhdr == le16(b, off + 8)
    &&& h.e_minalloc == le16(b, off + 10)
    &&& h.e_maxalloc == le16(b, off + 12)
    &&& h.e_ss == le16(b, off + 14)
    &&& h.e_sp == le16(b, off + 16)
    &&& h.e_csum == le16(b, off + 18)
    &&& h.e_ip == le16(b, off + 20)
    &&& h.e_cs == le16(b, off + 22)
    &&& h.e_lfarlc == le16(b, off + 24)
    &&& h.e_ovno == le16(b, off + 26)
    &&& forall|i: int| 0 <= i < 4 ==> h.e_res@[i] == le16(b, off + 28 + 2 * i)
    &&& h.e_oemid == le16(b, off + 36)
    &&& h.e_oeminfo == le16(b, off + 38)
    &&& forall|i: int| 0 <= i < 10 ==> h.e_res2@[i] == le16(b, off + 40 + 2 * i)
    &&& h.e_lfanew == le32(b, off + 60)
}

/// Reads the DOS header at `off`.
pub fn read_dos_header(b: &[u8], off: usize) -> (r: ImageDosHeader)
    requires
        off + DOS_HEADER_SIZE <= b@.len(),
    ensures
        dos_header_matches(b@, off as int, r),
{
    let _n: usize = b.len();
    let e_res: [u16; 4] = [
        read_u16(b, off + 28),
        read_u16(b, off + 30),
        read_u16(b, off + 32),
        read_u16(b, off + 34),
    ];
    let e_res2: [u16; 10] = [
        read_u16(b, off + 40),
        read_u16(b, off + 42),
        read_u16(b, off + 44),
        read_u16(b, off + 46),
        read_u16(b, off + 48),
        read_u16(b, off + 50),
        read_u16(b, off + 52),
        read_u16(b, off + 54),
        read_u16(b, off + 56),
        read_u16(b, off + 58),
    ];
    ImageDosHeader {
        e_magic: read_u16(b, off),
        e_cblp: read_u16(b, off + 2),
        e_cp: read_u16(b, off + 4),
        e_crlc: read_u16(b, off + 6),
        e_cparhdr: read_u16(b, off + 8),
        e_minalloc: read_u16(b, off + 10),
        e_maxalloc: read_u16(b, off + 12),
        e_ss: read_u16(b, off + 14),
        e_sp: read_u16(b, off + 16),
        e_csum: read_u16(b, off + 18),
        e_ip: read_u16(b, off + 20),
        e_cs: read_u16(b, off + 22),
        e_lfarlc: read_u16(b, off + 24),
        e_ovno: read_u16(b, off + 26),
        e_res,
        e_oemid: read_u16(b, off + 36),
        e_oeminfo: read_u16(b, off + 38),
        e_res2,
        e_lfanew: read_u32(b, off + 60),
    }
}

//----------------------------------------------------------------

pub const IMAGE_FILE_MACHINE_I386: u16 = 0x014c;
pub const IMAGE_FILE_MACHINE_IA64: u16 = 0x0200;
pub const IMAGE_FILE_MACHINE_AMD64: u16 = 0x8664;

pub const IMAGE_FILE_RELOCS_STRIPPED: u16 = 0x0001;
pub const IMAGE_FILE_EXECUTABLE_IMAGE: u16 = 0x0002;
pub const IMAGE_FILE_LINE_NUMS_STRIPPED: u16 = 0x0004;
pub const IMAGE_FILE_LOCAL_SYMS_STRIPPED: u16 = 0x0008;
pub const IMAGE_FILE_AGGRESIVE_WS_TRIM: u16 = 0x0010;
pub const IMAGE_FILE_LARGE_ADDRESS_AWARE: u16 = 0x0020;
pub const IMAGE_FILE_BYTES_REVERSED_LO: u16 = 0x0080;
pub const IMAGE_FILE_32BIT_MACHINE: u16 = 0x0100;
pub const IMAGE_FILE_DEBUG_STRIPPED: u16 = 0x0200;
pub const IMAGE_FILE_REMOVABLE_RUN_FROM_SWAP: u16 = 0x0400;
pub const IMAGE_FILE_NET_RUN_FROM_SWAP: u16 = 0x0800;
pub const IMAGE_FILE_SYSTEM: u16 = 0x1000;
pub const IMAGE_FILE_DLL: u16 = 0x2000;
pub const IMAGE_FILE_UP_SYSTEM_ONLY: u16 = 0x4000;
pub const IMAGE_FILE_BYTES_REVERSED_HI: u16 = 0x8000;

/// Size in bytes of the on-disk file header.
pub const FILE_HEADER_SIZE: usize = 20;

#[derive(Clone, Copy, PartialEq, Eq, Structural, Debug)]
pub struct ImageFileHeader {
    pub Machine: u16,
    pub NumberOfSections: u16,
    pub TimeDateStamp: u32,
    pub PointerToSymbolTable: u32,
    pub NumberOfSymbols: u32,
    pub SizeOfOptionalHeader: u16,
    pub Characteristics: u16,
}

/// The file header described by the bytes at `off`.
pub open spec fn spec_file_header(b: Seq<u8>, off: int) -> ImageFileHeader {
    ImageFileHeader {
        Machine: le16(b, off),
        NumberOfSections: le16(b, off + 2),
        TimeDateStamp: le32(b, off + 4),
        PointerToSymbolTable: le32(b, off + 8),
        NumberOfSymbols: le32(b, off + 12),
        SizeOfOptionalHeader: le16(b, off + 16),
        Characteristics: le16(b, off + 18),
    }
}

/// Reads the file header at `off`.
pub fn read_file_header(b: &[u8], off: usize) -> (r: ImageFileHeader)
    requires
        off + FILE_HEADER_SIZE <= b@.len(),
    ensures
        r == spec_file_header(b@, off as int),
{
    let _n: usize = b.len();
    ImageFileHeader {
        Machine: read_u16(b, off),
        NumberOfSections: read_u16(b, off + 2),
        TimeDateStamp: read_u32(b, off + 4),
        PointerToSymbolTable: read_u32(b, off + 8),
        NumberOfSymbols: read_u32(b, off + 12),
        SizeOfOptionalHeader: read_u16(b, off + 16),
        Characteristics: read_u16(b, off + 18),
    }
}

//----------------------------------------------------------------

/// Size in bytes of one data-directory entry.
pub const DATA_DIRECTORY_SIZE: usize = 8;

#[derive(Clone, Copy, PartialEq, Eq, Structural, Debug)]
pub struct ImageDataDirectory {
    pub VirtualAddress: u32,
    pub Size: u32,
}

/// The data-directory entry described by the bytes at `off`.
pub open spec fn spec_data_directory(b: Seq<u8>, off: int) -> ImageDataDirectory {
    ImageDataDirectory { VirtualAddress: le32(b, off), Size: le32(b, off + 4) }
}

/// Reads the data-directory entry at `off`.
pub fn read_data_directory(b: &[u8], off: usize) -> (r: ImageDataDirectory)
    requires
        off + DATA_DIRECTORY_SIZE <= b@.len(),
    ensures
        r == spec_data_directory(b@, off as int),
{
    let _n: usize = b.len();
    ImageDataDirectory { VirtualAddress: read_u32(b, off), Size: read_u32(b, off + 4) }
}

pub const IMAGE_DIRECTORY_ENTRY_EXPORT: usize = 0;
pub const IMAGE_DIRECTORY_ENTRY_IMPORT: usize = 1;
pub const IMAGE_DIRECTORY_ENTRY_RESOURCE: usize = 2;
pub const IMAGE_DIRECTORY_ENTRY_EXCEPTION: usize = 3;
pub const IMAGE_DIRECTORY_ENTRY_SECURITY: usize = 4;
pub const IMAGE_DIRECTORY_ENTRY_BASERELOC: usize = 5;
pub const IMAGE_DIRECTORY_ENTRY_DEBUG: usize = 6;
pub const IMAGE_DIRECTORY_ENTRY_ARCHITECTURE: usize = 7;
pub const IMAGE_DIRECTORY_ENTRY_GLOBALPTR: usize = 8;
pub const IMAGE_DIRECTORY_ENTRY_TLS: usize = 9;
pub const IMAGE_DIRECTORY_ENTRY_LOAD_CONFIG: usize = 10;
pub const IMAGE_DIRECTORY_ENTRY_BOUND_IMPORT: usize = 11;
pub const IMAGE_DIRECTORY_ENTRY_IAT: usize = 12;
pub const IMAGE_DIRECTORY_ENTRY_DELAY_IMPORT: usize = 13;
pub const IMAGE_DIRECTORY_ENTRY_COM_DESCRIPTOR: usize = 14;

pub const IMAGE_NUMBEROF_DIRECTORY_ENTRIES: usize = 16;

//----------------------------------------------------------------

pub const IMAGE_NT_OPTIONAL_HDR32_MAGIC: u16 = 0x10b;
pub const IMAGE_NT_OPTIONAL_HDR64_MAGIC: u16 = 0x20b;
pub const IMAGE_ROM_OPTIONAL_HDR_MAGIC: u16 = 0x107;

pub const IMAGE_SUBSYSTEM_UNKNOWN: u16 = 0;
pub const IMAGE_SUBSYSTEM_NATIVE: u16 = 1;
pub const IMAGE_SUBSYSTEM_WINDOWS_GUI: u16 = 2;
pub const IMAGE_SUBSYSTEM_WINDOWS_CUI: u16 = 3;
pub const IMAGE_SUBSYSTEM_OS2_CUI: u16 = 5;
pub const IMAGE_SUBSYSTEM_POSIX_CUI: u16 = 7;
pub const IMAGE_SUBSYSTEM_WINDOWS_CE_GUI: u16 = 9;
pub const IMAGE_SUBSYSTEM_EFI_APPLICATION: u16 = 10;
pub const IMAGE_SUBSYSTEM_EFI_BOOT_SERVICE_DRIVER: u16 = 11;
pub const IMAGE_SUBSYSTEM_EFI_RUNTIME_DRIVER: u16 = 12;
pub const IMAGE_SUBSYSTEM_EFI_ROM: u16 = 13;
pub const IMAGE_SUBSYSTEM_XBOX: u16 = 14;
pub const IMAGE_SUBSYSTEM_WINDOWS_BOOT_APPLICATION: u16 = 16;

pub const IMAGE_DLLCHARACTERISTICS_DYNAMIC_BASE: u16 = 0x0040;
pub const IMAGE_DLLCHARACTERISTICS_FORCE_INTEGRITY: u16 = 0x0080;
pub const IMAGE_DLLCHARACTERISTICS_NX_COMPAT: u16 = 0x0100;
pub const IMAGE_DLLCHARACTERISTICS_NO_ISOLATION: u16 = 0x0200;
pub const IMAGE_DLLCHARACTERISTICS_NO_SEH: u16 = 0x0400;
pub const IMAGE_DLLCHARACTERISTICS_NO_BIND: u16 = 0x0800;
pub const IMAGE_DLLCHARACTERISTICS_WDM_DRIVER: u16 = 0x2000;
pub const IMAGE_DLLCHARACTERISTICS_TERMINAL_SERVER_AWARE: u16 = 0x8000;

/// Size in bytes of the 32-bit optional header, its data directory included.
pub const OPTIONAL_HEADER32_SIZE: usize = 224;

/// Size in bytes of the 64-bit optional header, its data directory included.
pub const OPTIONAL_HEADER64_SIZE: usize = 240;

/// Offset of the data-directory array within the 32-bit optional header.
pub const DATA_DIRECTORY_OFFSET32: usize = 96;

/// Offset of the data-directory array within the 64-bit optional header.
pub const DATA_DIRECTORY_OFFSET64: usize = 112;

/// The 32-bit optional header.  The data-directory array that follows these
/// scalar fields on disk is read separately, entry by entry.
#[derive(Clone, Copy, PartialEq, Eq, Structural, Debug)]
pub struct ImageOptionalHeader32 {
    pub Magic: u16,
    pub MajorLinkerVersion: u8,
    pub MinorLinkerVersion: u8,
    pub SizeOfCode: u32,
    pub SizeOfInitializedData: u32,
    pub SizeOfUninitializedData: u32,
    pub AddressOfEntryPoint: u32,
    pub BaseOfCode: u32,
    pub BaseOfData: u32,
    pub ImageBase: u32,
    pub SectionAlignment: u32,
    pub FileAlignment: u32,
    pub MajorOperatingSystemVersion: u16,
    pub MinorOperatingSystemVersion: u16,
    pub MajorImageVersion: u16,
    pub MinorImageVersion: u16,
    pub MajorSubsystemVersion: u16,
    pub MinorSubsystemVersion: u16,
    pub Win32VersionValue: u32,
    pub SizeOfImage: u32,
    pub SizeOfHeaders: u32,
    pub CheckSum: u32,
    pub Subsystem: u16,
    pub DllCharacteristics: u16,
    pub SizeOfStackReserve: u32,
    pub SizeOfStackCommit: u32,
    pub SizeOfHeapReserve: u32,
    pub SizeOfHeapCommit: u32,
    pub LoaderFlags: u32,
    pub NumberOfRvaAndSizes: u32,
}

/// The 32-bit optional header described by the bytes at `off`.
pub open spec fn spec_optional_header32(b: Seq<u8>, off: int) -> ImageOptionalHeader32 {
    ImageOptionalHeader32 {
        Magic: le16(b, off),
        MajorLinkerVersion: b[off + 2],
        MinorLinkerVersion: b[off + 3],
        SizeOfCode: le32(b, off + 4),
        SizeOfInitializedData: le32(b, off + 8),
        SizeOfUninitializedData: le32(b, off + 12),
        AddressOfEntryPoint: le32(b, off + 16),
        BaseOfCode: le32(b, off + 20),
        BaseOfData: le32(b, off + 24),
        ImageBase: le32(b, off + 28),
        SectionAlignment: le32(b, off + 32),
        FileAlignment: le32(b, off + 36),
        MajorOperatingSystemVersion: le16(b, off + 40),
        MinorOperatingSystemVersion: le16(b, off + 42),
        MajorImageVersion: le16(b, off + 44),
        MinorImageVersion: le16(b, off + 46),
        MajorSubsystemVersion: le16(b, off + 48),
        MinorSubsystemVersion: le16(b, off + 50),
        Win32VersionValue: le32(b, off + 52),
        SizeOfImage: le32(b, off + 56),
        SizeOfHeaders: le32(b, off + 60),
        CheckSum: le32(b, off + 64),
        Subsystem: le16(b, off + 68),
        DllCharacteristics: le16(b, off + 70),
        SizeOfStackReserve: le32(b, off + 72),
        SizeOfStackCommit: le32(b, off + 76),
        SizeOfHeapReserve: le32(b, off + 80),
        SizeOfHeapCommit: le32(b, off + 84),
        LoaderFlags: le32(b, off + 88),
        NumberOfRvaAndSizes: le32(b, off + 92),
    }
}

/// Reads the 32-bit optional header at `off`.
pub fn read_optional_header32(b: &[u8], off: usize) -> (r: ImageOptionalHeader32)
    requires
        off + OPTIONAL_HEADER32_SIZE <= b@.len(),
    ensures
        r == spec_optional_header32(b@, off as int),
{
    let _n: usize = b.len();
    ImageOptionalHeader32 {
        Magic: read_u16(b, off),
        MajorLinkerVersion: *vstd::slice::slice_index_get(b, off + 2),
        MinorLinkerVersion: *vstd::slice::slice_index_get(b, off + 3),
        SizeOfCode: read_u32(b, off + 4),
        SizeOfInitializedData: read_u32(b, off + 8),
        SizeOfUninitializedData: read_u32(b, off + 12),
        AddressOfEntryPoint: read_u32(b, off + 16),
        BaseOfCode: read_u32(b, off + 20),
        BaseOfData: read_u32(b, off + 24),
        ImageBase: read_u32(b, off + 28),
        SectionAlignment: read_u32(b, off + 32),
        FileAlignment: read_u32(b, off + 36),
        MajorOperatingSystemVersion: read_u16(b, off + 40),
        MinorOperatingSystemVersion: read_u16(b, off + 42),
        MajorImageVersion: read_u16(b, off + 44),
        MinorImageVersion: read_u16(b, off + 46),
        MajorSubsystemVersion: read_u16(b, off + 48),
        MinorSubsystemVersion: read_u16(b, off + 50),
        Win32VersionValue: read_u32(b, off + 52),
        SizeOfImage: read_u32(b, off + 56),
        SizeOfHeaders: read_u32(b, off + 60),
        CheckSum: read_u32(b, off + 64),
        Subsystem: read_u16(b, off + 68),
        DllCharacteristics: read_u16(b, off + 70),
        SizeOfStackReserve: read_u32(b, off + 72),
        SizeOfStackCommit: read_u32(b, off + 76),
        SizeOfHeapReserve: read_u32(b, off + 80),
        SizeOfHeapCommit: read_u32(b, off + 84),
        LoaderFlags: read_u32(b, off + 88),
        NumberOfRvaAndSizes: read_u32(b, off + 92),
    }
}

/// The 64-bit optional header.  The data-directory array that follows these
/// scalar fields on disk is read separately, entry by entry.
#[derive(Clone, Copy, PartialEq, Eq, Structural, Debug)]
pub struct ImageOptionalHeader64 {
    pub Magic: u16,
    pub MajorLinkerVersion: u8,
    pub MinorLinkerVersion: u8,
    pub SizeOfCode: u32,
    pub SizeOfInitializedData: u32,
    pub SizeOfUninitializedData: u32,
    pub AddressOfEntryPoint: u32,
    pub BaseOfCode: u32,
    pub ImageBase: u64,
    pub SectionAlignment: u32,
    pub FileAlignment: u32,
    pub MajorOperatingSystemVersion: u16,
    pub MinorOperatingSystemVersion: u16,
    pub MajorImageVersion: u16,
    pub MinorImageVersion: u16,
    pub MajorSubsystemVersion: u16,
    pub MinorSubsystemVersion: u16,
    pub Win32VersionValue: u32,
    pub SizeOfImage: u32,
    pub SizeOfHeaders: u32,
    pub CheckSum: u32,
    pub Subsystem: u16,
    pub DllCharacteristics: u16,
    pub SizeOfStackReserve: u64,
    pub SizeOfStackCommit: u64,
    pub SizeOfHeapReserve: u64,
    pub SizeOfHeapCommit: u64,
    pub LoaderFlags: u32,
    pub NumberOfRvaAndSizes: u32,
}

/// The 64-bit optional header described by the bytes at `off`.
pub open spec fn spec_optional_header64(b: Seq<u8>, off: int) -> ImageOptionalHeader64 {
    ImageOptionalHeader64 {
        Magic: le16(b, off),
        MajorLinkerVersion: b[off + 2],
        MinorLinkerVersion: b[off + 3],
        SizeOfCode: le32(b, off + 4),
        SizeOfInitializedData: le32(b, off + 8),
        SizeOfUninitializedData: le32(b, off + 12),
        AddressOfEntryPoint: le32(b, off + 16),
        BaseOfCode: le32(b, off + 20),
        ImageBase: le64(b, off + 24),
        SectionAlignment: le32(b, off + 32),
        FileAlignment: le32(b, off + 36),
        MajorOperatingSystemVersion: le16(b, off + 40),
        MinorOperatingSystemVersion: le16(b, off + 42),
        MajorImageVersion: le16(b, off + 44),
        MinorImageVersion: le16(b, off + 46),
        MajorSubsystemVersion: le16(b, off + 48),
        MinorSubsystemVersion: le16(b, off + 50),
        Win32VersionValue: le32(b, off + 52),
        SizeOfImage: le32(b, off + 56),
        SizeOfHeaders: le32(b, off + 60),
        CheckSum: le32(b, off + 64),
        Subsystem: le16(b, off + 68),
        DllCharacteristics: le16(b, off + 70),
        SizeOfStackReserve: le64(b, off + 72),
        SizeOfStackCommit: le64(b, off + 80),
        SizeOfHeapReserve: le64(b, off + 88),
        SizeOfHeapCommit: le64(b, off + 96),
        LoaderFlags: le32(b, off + 104),
        NumberOfRvaAndSizes: le32(b, off + 108),
    }
}

/// Reads the 64-bit optional header at `off`.
pub fn read_optional_header64(b: &[u8], off: usize) -> (r: ImageOptionalHeader64)
    requires
        off + OPTIONAL_HEADER64_SIZE <= b@.len(),
    ensures
        r == spec_optional_header64(b@, off as int),
{
    let _n: usize = b.len();
    ImageOptionalHeader64 {
        Magic: read_u16(b, off),
        MajorLinkerVersion: *vstd::slice::slice_index_get(b, off + 2),
        MinorLinkerVersion: *vstd::slice::slice_index_get(b, off + 3),
        SizeOfCode: read_u32(b, off + 4),
        SizeOfInitializedData: read_u32(b, off + 8),
        SizeOfUninitializedData: read_u32(b, off + 12),
        AddressOfEntryPoint: read_u32(b, off + 16),
        BaseOfCode: read_u32(b, off + 20),
        ImageBase: read_u64(b, off + 24),
        SectionAlignment: read_u32(b, off + 32),
        FileAlignment: read_u32(b, off + 36),
        MajorOperatingSystemVersion: read_u16(b, off + 40),
        MinorOperatingSystemVersion: read_u16(b, off + 42),
        MajorImageVersion: read_u16(b, off + 44),
        MinorImageVersion: read_u16(b, off + 46),
        MajorSubsystemVersion: read_u16(b, off + 48),
        MinorSubsystemVersion: read_u16(b, off + 50),
        Win32VersionValue: read_u32(b, off + 52),
        SizeOfImage: read_u32(b, off + 56),
        SizeOfHeaders: read_u32(b, off + 60),
        CheckSum: read_u32(b, off + 64),
        Subsystem: read_u16(b, off + 68),
        DllCharacteristics: read_u16(b, off + 70),
        SizeOfStackReserve: read_u64(b, off + 72),
        SizeOfStackCommit: read_u64(b, off + 80),
        SizeOfHeapReserve: read_u64(b, off + 88),
        SizeOfHeapCommit: read_u64(b, off + 96),
        LoaderFlags: read_u32(b, off + 104),
        NumberOfRvaAndSizes: read_u32(b, off + 108),
    }
}

//----------------------------------------------------------------

pub const IMAGE_NT_HEADERS_SIGNATURE: u32 = 0x00004550;

/// Size in bytes of the 32-bit NT headers, optional header included.
pub const NT_HEADERS32_SIZE: usize = 248;

/// Size in bytes of the 64-bit NT headers, optional header included.
pub const NT_HEADERS64_SIZE: usize = 264;

#[derive(Clone, Copy, PartialEq, Eq, Structural, Debug)]
pub struct ImageNtHeaders32 {
    pub Signature: u32,
    pub FileHeader: ImageFileHeader,
    pub OptionalHeader: ImageOptionalHeader32,
}

#[derive(Clone, Copy, PartialEq, Eq, Structural, Debug)]
pub struct ImageNtHeaders64 {
    pub Signature: u32,
    pub FileHeader: ImageFileHeader,
    pub OptionalHeader: ImageOptionalHeader64,
}

/// The 32-bit NT headers described by the bytes at `off`.
pub open spec fn spec_nt_headers32(b: Seq<u8>, off: int) -> ImageNtHeaders32 {
    ImageNtHeaders32 {
        Signature: le32(b, off),
        FileHeader: spec_file_header(b, off + 4),
        OptionalHeader: spec_optional_header32(b, off + 24),
    }
}

/// Reads the 32-bit NT headers at `off`.
pub fn read_nt_headers32(b: &[u8], off: usize) -> (r: ImageNtHeaders32)
    requires
        off + NT_HEADERS32_SIZE <= b@.len(),
    ensures
        r == spec_nt_headers32(b@, off as int),
{
    let _n: usize = b.len();
    ImageNtHeaders32 {
        Signature: read_u32(b, off),
        FileHeader: read_file_header(b, off + 4),
        OptionalHeader: read_optional_header32(b, off + 24),
    }
}

/// The 64-bit NT headers described by the bytes at `off`.
pub open spec fn spec_nt_headers64(b: Seq<u8>, off: int) -> ImageNtHeaders64 {
    ImageNtHeaders64 {
        Signature: le32(b, off),
        FileHeader: spec_file_header(b, off + 4),
        OptionalHeader: spec_optional_header64(b, off + 24),
    }
}

/// Reads the 64-bit NT headers at `off`.
pub fn read_nt_headers64(b: &[u8], off: usize) -> (r: ImageNtHeaders64)
    requires
        off + NT_HEADERS64_SIZE <= b@.len(),
    ensures
        r == spec_nt_headers64(b@, off as int),
{
    let _n: usize = b.len();
    ImageNtHeaders64 {
        Signature: read_u32(b, off),
        FileHeader: read_file_header(b, off + 4),
        OptionalHeader: read_optional_header64(b, off + 24),
    }
}

//----------------------------------------------------------------

pub const IMAGE_SIZEOF_SHORT_NAME: usize = 8;

/// Size in bytes of one section header.
pub const SECTION_HEADER_SIZE: usize = 40;

pub const IMAGE_SCN_TYPE_NO_PAD: u32 = 0x00000008;
pub const IMAGE_SCN_CNT_CODE: u32 = 0x00000020;
pub const IMAGE_SCN_CNT_INITIALIZED_DATA: u32 = 0x00000040;
pub const IMAGE_SCN_CNT_UNINITIALIZED_DATA: u32 = 0x00000080;
pub const IMAGE_SCN_LNK_OTHER: u32 = 0x00000100;
pub const IMAGE_SCN_LNK_INFO: u32 = 0x00000200;
pub const IMAGE_SCN_LNK_REMOVE: u32 = 0x00000800;
pub const IMAGE_SCN_LNK_COMDAT: u32 = 0x00001000;
pub const IMAGE_SCN_NO_DEFER_SPEC_EXC: u32 = 0x00004000;
pub const IMAGE_SCN_GPREL: u32 = 0x00008000;
pub const IMAGE_SCN_MEM_PURGEABLE: u32 = 0x00020000;
pub const IMAGE_SCN_MEM_LOCKED: u32 = 0x00040000;
pub const IMAGE_SCN_MEM_PRELOAD: u32 = 0x00080000;
pub const IMAGE_SCN_ALIGN_1BYTES: u32 = 0x00100000;
pub const IMAGE_SCN_ALIGN_2BYTES: u32 = 0x00200000;
pub const IMAGE_SCN_ALIGN_4BYTES: u32 = 0x00300000;
pub const IMAGE_SCN_ALIGN_8BYTES: u32 = 0x00400000;
pub const IMAGE_SCN_ALIGN_16BYTES: u32 = 0x00500000;
pub const IMAGE_SCN_ALIGN_32BYTES: u32 = 0x00600000;
pub const IMAGE_SCN_ALIGN_64BYTES: u32 = 0x00700000;
pub const IMAGE_SCN_ALIGN_128BYTES: u32 = 0x00800000;
pub const IMAGE_SCN_ALIGN_256BYTES: u32 = 0x00900000;
pub const IMAGE_SCN_ALIGN_512BYTES: u32 = 0x00A00000;
pub const IMAGE_SCN_ALIGN_1024BYTES: u32 = 0x00B00000;
pub const IMAGE_SCN_ALIGN_2048BYTES: u32 = 0x00C00000;
pub const IMAGE_SCN_ALIGN_4096BYTES: u32 = 0x00D00000;
pub const IMAGE_SCN_ALIGN_8192BYTES: u32 = 0x00E00000;
pub const IMAGE_SCN_LNK_NRELOC_OVFL: u32 = 0x01000000;
pub const IMAGE_SCN_MEM_DISCARDABLE: u32 = 0x02000000;
pub const IMAGE_SCN_MEM_NOT_CACHED: u32 = 0x04000000;
pub const IMAGE_SCN_MEM_NOT_PAGED: u32 = 0x08000000;
pub const IMAGE_SCN_MEM_SHARED: u32 = 0x10000000;
pub const IMAGE_SCN_MEM_EXECUTE: u32 = 0x20000000;
pub const IMAGE_SCN_MEM_READ: u32 = 0x40000000;
pub const IMAGE_SCN_MEM_WRITE: u32 = 0x80000000;

#[derive(Clone, Copy, Debug)]
pub struct ImageSectionHeader {
    pub Name: [u8; 8],
    pub VirtualSize: u32,
    pub VirtualAddress: u32,
    pub SizeOfRawData: u32,
    pub PointerToRawData: u32,
    pub PointerToRelocations: u32,
    pub PointerToLinenumbers: u32,
    pub NumberOfRelocations: u16,
    pub NumberOfLinenumbers: u16,
    pub Characteristics: u32,
}

/// The section header `h` is exactly what the bytes at `off` describe.
pub open spec fn section_header_matches(b: Seq<u8>, off: int, h: ImageSectionHeader) -> bool {
    &&& forall|i: int| 0 <= i < 8 ==> h.Name@[i] == b[off + i]
    &&& h.VirtualSize == le32(b, off + 8)
    &&& h.VirtualAddress == le32(b, off + 12)
    &&& h.SizeOfRawData == le32(b, off + 16)
    &&& h.PointerToRawData == le32(b, off + 20)
    &&& h.PointerToRelocations == le32(b, off + 24)
    &&& h.PointerToLinenumbers == le32(b, off + 28)
    &&& h.NumberOfRelocations == le16(b, off + 32)
    &&& h.NumberOfLinenumbers == le16(b, off + 34)
    &&& h.Characteristics == le32(b, off + 36)
}

/// Reads the section header at `off`.
pub fn read_section_header(b: &[u8], off: usize) -> (r: ImageSectionHeader)
    requires
        off + SECTION_HEADER_SIZE <= b@.len(),
    ensures
        section_header_matches(b@, off as int, r),
{
    let _n: usize = b.len();
    let Name: [u8; 8] = [
        *vstd::slice::slice_index_get(b, off),
        *vstd::slice::slice_index_get(b, off + 1),
        *vstd::slice::slice_index_get(b, off + 2),
        *vstd::slice::slice_index_get(b, off + 3),
        *vstd::slice::slice_index_get(b, off + 4),
        *vstd::slice::slice_index_get(b, off + 5),
        *vstd::slice::slice_index_get(b, off + 6),
        *vstd::slice::slice_index_get(b, off + 7),
    ];
    ImageSectionHeader {
        Name,
        VirtualSize: read_u32(b, off + 8),
        VirtualAddress: read_u32(b, off + 12),
        SizeOfRawData: read_u32(b, off + 16),
        PointerToRawData: read_u32(b, off + 20),
        PointerToRelocations: read_u32(b, off + 24),
        PointerToLinenumbers: read_u32(b, off + 28),
        NumberOfRelocations: read_u16(b, off + 32),
        NumberOfLinenumbers: read_u16(b, off + 34),
        Characteristics: read_u32(b, off + 36),
    }
}

//----------------------------------------------------------------

/// Size in bytes of the export directory record.
pub const EXPORT_DIRECTORY_SIZE: usize = 40;

#[derive(Clone, Copy, PartialEq, Eq, Structural, Debug)]
pub struct ImageExportDirectory {
    pub Characteristics: u32,
    pub TimeDateStamp: u32,
    pub MajorVersion: u16,
    pub MinorVersion: u16,
    pub Name: u32,
    pub Base: u32,
    pub NumberOfFunctions: u32,
    pub NumberOfNames: u32,
    pub AddressOfFunctions: u32,
    pub AddressOfNames: u32,
    pub AddressOfNameOrdinals: u32,
}

/// The export directory record described by the bytes at `off`.
pub open spec fn spec_export_directory(b: Seq<u8>, off: int) -> ImageExportDirectory {
    ImageExportDirectory {
        Characteristics: le32(b, off),
        TimeDateStamp: le32(b, off + 4),
        MajorVersion: le16(b, off + 8),
        MinorVersion: le16(b, off + 10),
        Name: le32(b, off + 12),
        Base: le32(b, off + 16),
        NumberOfFunctions: le32(b, off + 20),
        NumberOfNames: le32(b, off + 24),
        AddressOfFunctions: le32(b, off + 28),
        AddressOfNames: le32(b, off + 32),
        AddressOfNameOrdinals: le32(b, off + 36),
    }
}

/// Reads the export directory record at `off`.
pub fn read_export_directory(b: &[u8], off: usize) -> (r: ImageExportDirectory)
    requires
        off + EXPORT_DIRECTORY_SIZE <= b@.len(),
    ensures
        r == spec_export_directory(b@, off as int),
{
    let _n: usize = b.len();
    ImageExportDirectory {
        Characteristics: read_u32(b, off),
        TimeDateStamp: read_u32(b, off + 4),
        MajorVersion: read_u16(b, off + 8),
        MinorVersion: read_u16(b, off + 10),
        Name: read_u32(b, off + 12),
        Base: read_u32(b, off + 16),
        NumberOfFunctions: read_u32(b, off + 20),
        NumberOfNames: read_u32(b, off + 24),
        AddressOfFunctions: read_u32(b, off + 28),
        AddressOfNames: read_u32(b, off + 32),
        AddressOfNameOrdinals: read_u32(b, off + 36),
    }
}

//----------------------------------------------------------------

/// Size in bytes of one import descriptor.
pub const IMPORT_DESCRIPTOR_SIZE: usize = 20;

#[derive(Clone, Copy, PartialEq, Eq, Structural, Debug)]
pub struct ImageImportDescriptor {
    pub OriginalFirstThunk: u32,
    pub TimeDateStamp: u32,
    pub ForwarderChain: u32,
    pub Name: u32,
    pub FirstThunk: u32,
}

/// The import descriptor described by the bytes at `off`.
pub open spec fn spec_import_descriptor(b: Seq<u8>, off: int) -> ImageImportDescriptor {
    ImageImportDescriptor {
        OriginalFirstThunk: le32(b, off),
        TimeDateStamp: le32(b, off + 4),
        ForwarderChain: le32(b, off + 8),
        Name: le32(b, off + 12),
        FirstThunk: le32(b, off + 16),
    }
}

/// Reads the import descriptor at `off`.
pub fn read_import_descriptor(b: &[u8], off: usize) -> (r: ImageImportDescriptor)
    requires
        off + IMPORT_DESCRIPTOR_SIZE <= b@.len(),
    ensures
        r == spec_import_descriptor(b@, off as int),
{
    let _n: usize = b.len();
    ImageImportDescriptor {
        OriginalFirstThunk: read_u32(b, off),
        TimeDateStamp: read_u32(b, off + 4),
        ForwarderChain: read_u32(b, off + 8),
        Name: read_u32(b, off + 12),
        FirstThunk: read_u32(b, off + 16),
    }
}

pub const IMAGE_ORDINAL_FLAG32: u32 = 0x80000000;
pub const IMAGE_ORDINAL_FLAG64: u64 = 0x8000000000000000;

//----------------------------------------------------------------

pub const RT_CURSOR: u16 = 1;
pub const RT_BITMAP: u16 = 2;
pub const RT_ICON: u16 = 3;
pub const RT_MENU: u16 = 4;
pub const RT_DIALOG: u16 = 5;
pub const RT_STRING: u16 = 6;
pub const RT_FONTDIR: u16 = 7;
pub const RT_FONT: u16 = 8;
pub const RT_ACCELERATOR: u16 = 9;
pub const RT_RCDATA: u16 = 10;
pub const RT_MESSAGETABLE: u16 = 11;
pub const RT_GROUP_CURSOR: u16 = 12;
pub const RT_GROUP_ICON: u16 = 14;
pub const RT_VERSION: u16 = 16;
pub const RT_DLGINCLUDE: u16 = 17;
pub const RT_PLUGPLAY: u16 = 19;
pub const RT_VXD: u16 = 20;
pub const RT_ANICURSOR: u16 = 21;
pub const RT_ANIICON: u16 = 22;
pub const RT_HTML: u16 = 23;
pub const RT_MANIFEST: u16 = 24;

/// Size in bytes of a resource directory header.
pub const RESOURCE_DIRECTORY_SIZE: usize = 16;

/// Size in bytes of one resource directory entry.
pub const RESOURCE_DIRECTORY_ENTRY_SIZE: usize = 8;

/// Size in bytes of a resource data entry.
pub const RESOURCE_DATA_ENTRY_SIZE: usize = 16;

#[derive(Clone, Copy, PartialEq, Eq, Structural, Debug)]
pub struct ImageResourceDirectory {
    pub Characteristics: u32,
    pub TimeDateStamp: u32,
    pub MajorVersion: u16,
    pub MinorVersion: u16,
    pub NumberOfNamedEntries: u16,
    pub NumberOfIdEntries: u16,
}

/// The resource directory header described by the bytes at `off`.
pub open spec fn spec_resource_directory(b: Seq<u8>, off: int) -> ImageResourceDirectory {
    ImageResourceDirectory {
        Characteristics: le32(b, off),
        TimeDateStamp: le32(b, off + 4),
        MajorVersion: le16(b, off + 8),
        MinorVersion: le16(b, off + 10),
        NumberOfNamedEntries: le16(b, off + 12),
        NumberOfIdEntries: le16(b, off + 14),
    }
}

/// Reads the resource directory header at `off`.
pub fn read_resource_directory(b: &[u8], off: usize) -> (r: ImageResourceDirectory)
    requires
        off + RESOURCE_DIRECTORY_SIZE <= b@.len(),
    ensures
        r == spec_resource_directory(b@, off as int),
{
    let _n: usize = b.len();
    ImageResourceDirectory {
        Characteristics: read_u32(b, off),
        TimeDateStamp: read_u32(b, off + 4),
        MajorVersion: read_u16(b, off + 8),
        MinorVersion: read_u16(b, off + 10),
        NumberOfNamedEntries: read_u16(b, off + 12),
        NumberOfIdEntries: read_u16(b, off + 14),
    }
}

/// A resource directory entry.
///
/// If the high bit of `Name` is set, the low 31 bits are an offset within
/// the resource directory to a length-prefixed UTF-16 name; otherwise the
/// low 16 bits are a numeric id.  If the high bit of `Offset` is set, the
/// low 31 bits point within the resource directory to a child directory;
/// otherwise they point to a data entry.
#[derive(Clone, Copy, PartialEq, Eq, Structural, Debug)]
pub struct ImageResourceDirectoryEntry {
    pub Name: u32,
    pub Offset: u32,
}

/// The resource directory entry described by the bytes at `off`.
pub open spec fn spec_resource_directory_entry(b: Seq<u8>, off: int) -> ImageResourceDirectoryEntry {
    ImageResourceDirectoryEntry { Name: le32(b, off), Offset: le32(b, off + 4) }
}

/// Reads the resource directory entry at `off`.
pub fn read_resource_directory_entry(b: &[u8], off: usize) -> (r: ImageResourceDirectoryEntry)
    requires
        off + RESOURCE_DIRECTORY_ENTRY_SIZE <= b@.len(),
    ensures
        r == spec_resource_directory_entry(b@, off as int),
{
    let _n: usize = b.len();
    ImageResourceDirectoryEntry { Name: read_u32(b, off), Offset: read_u32(b, off + 4) }
}

#[derive(Clone, Copy, PartialEq, Eq, Structural, Debug)]
pub struct ImageResourceDataEntry {
    pub OffsetToData: u32,
    pub Size: u32,
    pub CodePage: u32,
    pub Reserved: u32,
}

/// The resource data entry described by the bytes at `off`.
pub open spec fn spec_resource_data_entry(b: Seq<u8>, off: int) -> ImageResourceDataEntry {
    ImageResourceDataEntry {
        OffsetToData: le32(b, off),
        Size: le32(b, off + 4),
        CodePage: le32(b, off + 8),
        Reserved: le32(b, off + 12),
    }
}

/// Reads the resource data entry at `off`.
pub fn read_resource_data_entry(b: &[u8], off: usize) -> (r: ImageResourceDataEntry)
    requires
        off + RESOURCE_DATA_ENTRY_SIZE <= b@.len(),
    ensures
        r == spec_resource_data_entry(b@, off as int),
{
    let _n: usize = b.len();
    ImageResourceDataEntry {
        OffsetToData: read_u32(b, off),
        Size: read_u32(b, off + 4),
        CodePage: read_u32(b, off + 8),
        Reserved: read_u32(b, off + 12),
    }
}

//----------------------------------------------------------------

pub const IMAGE_REL_BASED_ABSOLUTE: u8 = 0;
pub const IMAGE_REL_BASED_HIGH: u8 = 1;
pub const IMAGE_REL_BASED_LOW: u8 = 2;
pub const IMAGE_REL_BASED_HIGHLOW: u8 = 3;
pub const IMAGE_REL_BASED_HIGHADJ: u8 = 4;
pub const IMAGE_REL_BASED_MIPSJMPADDR: u8 = 5;
pub const IMAGE_REL_BASED_MIPSJMPADDR16: u8 = 9;
pub const IMAGE_REL_BASED_IA64IMM64: u8 = 9;
pub const IMAGE_REL_BASED_DIR64: u8 = 10;

/// Size in bytes of a base-relocation block header.
pub const BASE_RELOCATION_SIZE: usize = 8;

#[derive(Clone, Copy, PartialEq, Eq, Structural, Debug)]
pub struct ImageBaseRelocation {
    pub VirtualAddress: u32,
    pub SizeOfBlock: u32,
}

/// The base-relocation block header described by the bytes at `off`.
pub open spec fn spec_base_relocation(b: Seq<u8>, off: int) -> ImageBaseRelocation {
    ImageBaseRelocation { VirtualAddress: le32(b, off), SizeOfBlock: le32(b, off + 4) }
}

/// Reads the base-relocation block header at `off`.
pub fn read_base_relocation(b: &[u8], off: usize) -> (r: ImageBaseRelocation)
    requires
        off + BASE_RELOCATION_SIZE <= b@.len(),
    ensures
        r == spec_base_relocation(b@, off as int),
{
    let _n: usize = b.len();
    ImageBaseRelocation { VirtualAddress: read_u32(b, off), SizeOfBlock: read_u32(b, off + 4) }
}

/// One base-relocation entry: a 4-bit type in the high bits and a 12-bit
/// page offset in the low bits.
#[derive(Clone, Copy, PartialEq, Eq, Structural, Debug)]
pub struct ImageBaseRelocBlock {
    pub TypeAndOffset: u16,
}

} // verus!
