//! Tests over a synthesized 64-bit mapped image: view navigation, offset
//! conversion, the exports directory, and the relocation stream.

use pelite::pe64::peview::PeView;
use pelite::pe64::exports::Export;
use pelite::pe64::imports::ImportedSymbol;
use pelite::pe64::pefile::PeFile;
use pelite::pe64::pefile::PeError;

fn put16(b: &mut Vec<u8>, off: usize, v: u16) {
    b[off..off + 2].copy_from_slice(&v.to_le_bytes());
}

fn put32(b: &mut Vec<u8>, off: usize, v: u32) {
    b[off..off + 4].copy_from_slice(&v.to_le_bytes());
}

fn put64(b: &mut Vec<u8>, off: usize, v: u64) {
    b[off..off + 8].copy_from_slice(&v.to_le_bytes());
}

/// A minimal mapped PE64 image: DOS header, NT headers, one section
/// mapped at Rva 0x1000 from file offset 0x400.
fn mapped_image() -> Vec<u8> {
    let mut b = vec![0u8; 0x3000];
    put16(&mut b, 0, 0x5A4D);
    put32(&mut b, 0x3C, 0x40);
    put32(&mut b, 0x40, 0x4550);
    put16(&mut b, 0x44, 0x8664);
    put16(&mut b, 0x46, 1); // NumberOfSections
    put16(&mut b, 0x54, 240); // SizeOfOptionalHeader
    put16(&mut b, 0x56, 0x2000); // Characteristics: DLL
    put16(&mut b, 0x58, 0x20B); // optional magic
    put64(&mut b, 0x58 + 24, 0x1_4000_0000); // ImageBase
    put32(&mut b, 0x58 + 56, 0x3000); // SizeOfImage
    put32(&mut b, 0x58 + 60, 0x200); // SizeOfHeaders
    put32(&mut b, 0x58 + 108, 16); // NumberOfRvaAndSizes
    // one section header at 0x148
    b[0x148..0x14D].copy_from_slice(b".data");
    put32(&mut b, 0x148 + 8, 0x2000); // VirtualSize
    put32(&mut b, 0x148 + 12, 0x1000); // VirtualAddress
    put32(&mut b, 0x148 + 16, 0x2000); // SizeOfRawData
    put32(&mut b, 0x148 + 20, 0x400); // PointerToRawData
    b
}

fn put_cstr(b: &mut Vec<u8>, off: usize, s: &[u8]) {
    b[off..off + s.len()].copy_from_slice(s);
    b[off + s.len()] = 0;
}

/// The image with an export directory: `foo` at ordinal 1 (Rva 0x2000)
/// and `bar` at ordinal 2, forwarded to `other.dll.baz`.
fn image_with_exports() -> Vec<u8> {
    let mut b = mapped_image();
    put32(&mut b, 0xC8, 0x1000); // export directory Rva
    put32(&mut b, 0xCC, 0x100); // export directory size
    put32(&mut b, 0x1000 + 12, 0x1100); // Name
    put32(&mut b, 0x1000 + 16, 1); // Base
    put32(&mut b, 0x1000 + 20, 2); // NumberOfFunctions
    put32(&mut b, 0x1000 + 24, 2); // NumberOfNames
    put32(&mut b, 0x1000 + 28, 0x1040); // AddressOfFunctions
    put32(&mut b, 0x1000 + 32, 0x1050); // AddressOfNames
    put32(&mut b, 0x1000 + 36, 0x1058); // AddressOfNameOrdinals
    put32(&mut b, 0x1040, 0x2000); // foo: a symbol Rva
    put32(&mut b, 0x1044, 0x1080); // bar: inside the directory => forward
    put32(&mut b, 0x1050, 0x1060); // name Rva of "bar"
    put32(&mut b, 0x1054, 0x1068); // name Rva of "foo"
    put16(&mut b, 0x1058, 1); // "bar" resolves through index 1
    put16(&mut b, 0x105A, 0); // "foo" resolves through index 0
    put_cstr(&mut b, 0x1060, b"bar");
    put_cstr(&mut b, 0x1068, b"foo");
    put_cstr(&mut b, 0x1080, b"other.dll.baz");
    put_cstr(&mut b, 0x1100, b"dummy.dll");
    b
}

/// The image with two relocation blocks, page Rvas 0x1000 and 0x2000,
/// each holding one DIR64 entry at page offset 0x18.
fn image_with_relocs() -> Vec<u8> {
    let mut b = mapped_image();
    put32(&mut b, 0xF0, 0x2100); // base-relocation directory Rva (slot 5)
    put32(&mut b, 0xF4, 20); // directory size: two 10-byte blocks
    put32(&mut b, 0x2100, 0x1000);
    put32(&mut b, 0x2104, 10);
    put16(&mut b, 0x2108, 0xA018);
    put32(&mut b, 0x210A, 0x2000);
    put32(&mut b, 0x210E, 10);
    put16(&mut b, 0x2112, 0xA018);
    b
}

/// The image importing KERNEL32.dll!GetProcAddress by name and
/// USER32.dll ordinal 42, with 64-bit thunks.
fn image_with_imports() -> Vec<u8> {
    let mut b = mapped_image();
    put32(&mut b, 0xD0, 0x1000); // import directory Rva (slot 1)
    put32(&mut b, 0xD4, 60); // import directory size
    // first descriptor
    put32(&mut b, 0x1000, 0x1200); // OriginalFirstThunk
    put32(&mut b, 0x100C, 0x1300); // Name
    put32(&mut b, 0x1010, 0x1240); // FirstThunk
    // second descriptor
    put32(&mut b, 0x1014, 0x1280); // OriginalFirstThunk
    put32(&mut b, 0x1020, 0x1320); // Name
    put32(&mut b, 0x1024, 0x1280); // FirstThunk
    // the all-zero sentinel descriptor at 0x1028 is already there
    put64(&mut b, 0x1200, 0x1400); // INT: hint/name at 0x1400
    put64(&mut b, 0x1240, 0x1400); // IAT: on-disk copy of the INT
    put64(&mut b, 0x1280, 0x8000_0000_0000_002A); // INT: bit 63 set, ordinal 42
    put16(&mut b, 0x1400, 0x0123); // hint
    put_cstr(&mut b, 0x1402, b"GetProcAddress");
    put_cstr(&mut b, 0x1300, b"KERNEL32.dll");
    put_cstr(&mut b, 0x1320, b"USER32.dll");
    b
}

#[test]
fn imports64_one_descriptor_by_name() {
    let b = image_with_imports();
    let v = PeView::new(&b).unwrap();
    let imports = v.imports().unwrap();
    let mut it = imports.iter();
    let desc = it.next(&v).unwrap();
    assert_eq!(desc.dll_name(&v), b"KERNEL32.dll");
    let mut int = desc.int_iter();
    match int.next(&v).unwrap() {
        ImportedSymbol::ByName { hint, name } => {
            assert_eq!(hint, 0x0123);
            assert_eq!(name.as_slice(), b"GetProcAddress");
        }
        _ => panic!("expected an import by name"),
    }
    assert!(int.next(&v).is_none());
    let mut iat = desc.iat_iter();
    assert_eq!(iat.next(&v), Some(0x1400));
    assert_eq!(iat.next(&v), None);
}

#[test]
fn imports64_ordinal_flag_is_bit_63() {
    let b = image_with_imports();
    let v = PeView::new(&b).unwrap();
    let imports = v.imports().unwrap();
    let mut it = imports.iter();
    let _first = it.next(&v).unwrap();
    let second = it.next(&v).unwrap();
    assert_eq!(second.dll_name(&v), b"USER32.dll");
    let mut int = second.int_iter();
    match int.next(&v).unwrap() {
        ImportedSymbol::ByOrdinal { ord } => assert_eq!(ord, 42),
        _ => panic!("expected an import by ordinal"),
    }
    assert!(int.next(&v).is_none());
    assert!(it.next(&v).is_none());
}

/// A minimal on-disk PE64 file: headers within the first 0x200 bytes and
/// one section whose 0x80 raw bytes live at file offset 0x200.
fn loader_file() -> Vec<u8> {
    let mut f = vec![0u8; 0x280];
    put16(&mut f, 0, 0x5A4D);
    put32(&mut f, 0x3C, 0x40);
    put32(&mut f, 0x40, 0x4550);
    put16(&mut f, 0x46, 1); // NumberOfSections
    put16(&mut f, 0x54, 240); // SizeOfOptionalHeader
    put16(&mut f, 0x58, 0x20B);
    put64(&mut f, 0x58 + 24, 0x1_4000_0000); // ImageBase
    put32(&mut f, 0x58 + 56, 0x2000); // SizeOfImage
    put32(&mut f, 0x58 + 60, 0x200); // SizeOfHeaders
    put32(&mut f, 0x58 + 108, 16); // NumberOfRvaAndSizes
    put32(&mut f, 0x148 + 8, 0x100); // VirtualSize
    put32(&mut f, 0x148 + 12, 0x1000); // VirtualAddress
    put32(&mut f, 0x148 + 16, 0x80); // SizeOfRawData
    put32(&mut f, 0x148 + 20, 0x200); // PointerToRawData
    for i in 0..0x80usize {
        f[0x200 + i] = (i as u8) ^ 0x5C;
    }
    f
}

#[test]
fn loader64_maps_sections() {
    let f = loader_file();
    let pe = PeFile::load(&f).unwrap();
    let v = pe.view_of();
    let img = v.image();
    assert_eq!(img.len(), 0x2000);
    assert_eq!(&img[..0x200], &f[..0x200]);
    assert_eq!(&img[0x1000..0x1080], &f[0x200..0x280]);
    assert!(img[0x200..0x1000].iter().all(|&x| x == 0));
    assert!(img[0x1080..].iter().all(|&x| x == 0));
    assert_eq!(v.virtual_base(), 0x1_4000_0000);
}

#[test]
fn loader64_rejects_bad_inputs() {
    let mut f = loader_file();
    f[0] = 0x5A;
    f[1] = 0x4D;
    assert!(matches!(PeFile::load(&f), Err(PeError::BadMagic)));
    let mut f = loader_file();
    put16(&mut f, 0x58, 0x10B); // a 32-bit optional header does not belong here
    assert!(matches!(PeFile::load(&f), Err(PeError::BadMagic)));
    let mut f = loader_file();
    put16(&mut f, 0x46, 200);
    assert!(matches!(PeFile::load(&f), Err(PeError::Insanity)));
    assert!(matches!(PeFile::load(&loader_file()[..0x100]), Err(PeError::Io)));
}

#[test]
fn view_accepts_valid_image() {
    let b = mapped_image();
    assert!(PeView::new(&b).is_some());
}

#[test]
fn view_rejects_bad_magic() {
    let mut b = mapped_image();
    b[0] = 0x5A;
    b[1] = 0x4D;
    assert!(PeView::new(&b).is_none());
}

#[test]
fn view_rejects_truncated_buffer() {
    let b = mapped_image();
    assert!(PeView::new(&b[..0x100]).is_none());
    assert!(PeView::new(&b[..0x20]).is_none());
}

#[test]
fn view_rejects_wrong_optional_magic() {
    let mut b = mapped_image();
    put16(&mut b, 0x58, 0x10B);
    assert!(PeView::new(&b).is_none());
}

#[test]
fn header_navigation() {
    let b = mapped_image();
    let v = PeView::new(&b).unwrap();
    assert_eq!(v.dos_header().e_magic, 0x5A4D);
    assert_eq!(v.dos_header().e_lfanew, 0x40);
    let nt = v.nt_headers();
    assert_eq!(nt.Signature, 0x4550);
    assert_eq!(nt.FileHeader.Machine, 0x8664);
    assert_eq!(v.file_header().NumberOfSections, 1);
    assert_eq!(v.optional_header().Magic, 0x20B);
    assert_eq!(v.optional_header().SizeOfImage, 0x3000);
    assert_eq!(v.optional_header().ImageBase, 0x1_4000_0000);
    assert_eq!(v.virtual_base(), 0x1_4000_0000);
    let secs = v.section_headers();
    assert_eq!(secs.len(), 1);
    assert_eq!(&secs[0].Name[..5], b".data");
    assert_eq!(secs[0].VirtualAddress, 0x1000);
    assert_eq!(secs[0].SizeOfRawData, 0x2000);
    assert_eq!(secs[0].PointerToRawData, 0x400);
    assert_eq!(v.data_directory().len(), 16);
    assert_eq!(v.image().len(), 0x3000);
}

#[test]
fn zero_rva_is_absent() {
    let b = mapped_image();
    let v = PeView::new(&b).unwrap();
    assert!(v.read_bytes(0, 4).is_none());
    assert!(v.read_u16(0).is_none());
    assert!(v.read_u32(0).is_none());
    assert!(v.read_u64(0).is_none());
    assert!(v.read_str(0).is_none());
}

#[test]
fn typed_reads() {
    let mut b = mapped_image();
    put32(&mut b, 0x2000, 0xDEADBEEF);
    put_cstr(&mut b, 0x2010, b"hello");
    let v = PeView::new(&b).unwrap();
    assert_eq!(v.read_u32(0x2000), Some(0xDEADBEEF));
    assert_eq!(v.read_u16(0x2000), Some(0xBEEF));
    assert_eq!(v.read_str(0x2010).unwrap(), b"hello");
    assert_eq!(v.read_bytes(0x2000, 2).unwrap(), &[0xEF, 0xBE]);
}

#[test]
fn offset_conversion_round_trip() {
    let b = mapped_image();
    let v = PeView::new(&b).unwrap();
    assert_eq!(v.rva_to_file_offset(0x1500), Some(0x900));
    assert_eq!(v.file_offset_to_rva(0x900), 0x1500);
    assert_eq!(v.rva_to_file_offset(0x1000), Some(0x400));
    assert_eq!(v.file_offset_to_rva(0x400), 0x1000);
    // Rvas outside every section have no file offset.
    assert_eq!(v.rva_to_file_offset(0x500), None);
    assert_eq!(v.file_offset_to_rva(0x100), 0);
}

#[test]
fn va_conversion() {
    let b = mapped_image();
    let v = PeView::new(&b).unwrap();
    assert_eq!(v.rva_to_va(0x1000), 0x1_4000_1000);
    assert_eq!(v.rva_to_va(0), 0);
    assert_eq!(v.va_to_rva(0x1_4000_1000), Some(0x1000));
    assert_eq!(v.va_to_rva(0), Some(0));
    // Below the image base, or too far above it: absent, not truncated.
    assert_eq!(v.va_to_rva(0x1000), None);
    assert_eq!(v.va_to_rva(0x1_4000_0000 + 0x2_0000_0000), None);
}

#[test]
fn exports_absent_when_slot_empty() {
    let b = mapped_image();
    let v = PeView::new(&b).unwrap();
    assert!(v.exports().is_none());
}

#[test]
fn exports_directory_record() {
    let b = image_with_exports();
    let v = PeView::new(&b).unwrap();
    let e = v.exports().unwrap();
    assert_eq!(e.image().Base, 1);
    assert_eq!(e.image().NumberOfFunctions, 2);
    assert_eq!(e.image().NumberOfNames, 2);
    assert_eq!(e.name(&v), b"dummy.dll");
    assert_eq!(e.functions(&v).unwrap(), vec![0x2000, 0x1080]);
    assert_eq!(e.names(&v).unwrap(), vec![0x1060, 0x1068]);
    assert_eq!(e.name_indices(&v).unwrap(), vec![1, 0]);
    assert!(e.is_forwarded(0x1080));
    assert!(!e.is_forwarded(0x2000));
}

#[test]
fn symbol_by_name_resolves_both_kinds() {
    let b = image_with_exports();
    let v = PeView::new(&b).unwrap();
    let e = v.exports().unwrap();
    match e.symbol_by_name(&v, b"foo") {
        Export::Symbol(rva) => assert_eq!(rva, 0x2000),
        _ => panic!("foo must be a plain symbol"),
    }
    match e.symbol_by_name(&v, b"bar") {
        Export::Forward(s) => assert_eq!(s.as_slice(), b"other.dll.baz"),
        _ => panic!("bar must be forwarded"),
    }
    assert!(matches!(e.symbol_by_name(&v, b"baz"), Export::Absent));
}

#[test]
fn symbol_by_ordinal_and_bounds() {
    let b = image_with_exports();
    let v = PeView::new(&b).unwrap();
    let e = v.exports().unwrap();
    match e.symbol_by_ordinal(&v, 1) {
        Export::Symbol(rva) => assert_eq!(rva, 0x2000),
        _ => panic!("ordinal 1 must be a plain symbol"),
    }
    match e.symbol_by_ordinal(&v, 2) {
        Export::Forward(s) => assert_eq!(s.as_slice(), b"other.dll.baz"),
        _ => panic!("ordinal 2 must be forwarded"),
    }
    // Below the base, and past the table: absent.
    assert!(matches!(e.symbol_by_ordinal(&v, 0), Export::Absent));
    assert!(matches!(e.symbol_by_ordinal(&v, 3), Export::Absent));
    assert!(matches!(e.symbol_by_ordinal(&v, 500), Export::Absent));
}

#[test]
fn name_from_ordinal_surfaces_names() {
    let b = image_with_exports();
    let v = PeView::new(&b).unwrap();
    let e = v.exports().unwrap();
    let one = e.name_from_ordinal(&v, 1);
    assert_eq!(one.ord, 1);
    assert_eq!(one.name.as_deref(), Some(&b"foo"[..]));
    assert!(matches!(one.symbol, Export::Symbol(0x2000)));
    let two = e.name_from_ordinal(&v, 2);
    assert_eq!(two.name.as_deref(), Some(&b"bar"[..]));
    assert!(matches!(two.symbol, Export::Forward(_)));
    let three = e.name_from_ordinal(&v, 3);
    assert!(matches!(three.symbol, Export::Absent));
    assert!(three.name.is_none());
}

#[test]
fn export_iterator_yields_ordinals() {
    let b = image_with_exports();
    let v = PeView::new(&b).unwrap();
    let e = v.exports().unwrap();
    let mut it = e.iter();
    assert_eq!(it.next(&e), Some(1));
    assert_eq!(it.next(&e), Some(2));
    assert_eq!(it.next(&e), None);
    assert_eq!(it.next(&e), None);
}

#[test]
fn reloc_stream_validation() {
    let b = image_with_relocs();
    let v = PeView::new(&b).unwrap();
    assert!(v.relocs().unwrap().validate(&v));
    // A block declaring only its own header size is refused.
    let mut b = image_with_relocs();
    put32(&mut b, 0x2104, 8);
    let v = PeView::new(&b).unwrap();
    assert!(!v.relocs().unwrap().validate(&v));
    // A block running past the directory's extent is refused.
    let mut b = image_with_relocs();
    put32(&mut b, 0x210E, 0x40);
    let v = PeView::new(&b).unwrap();
    assert!(!v.relocs().unwrap().validate(&v));
}

#[test]
fn relocs_absent_when_slot_empty() {
    let b = mapped_image();
    let v = PeView::new(&b).unwrap();
    assert!(v.relocs().is_none());
}

#[test]
fn two_relocation_blocks() {
    let b = image_with_relocs();
    let v = PeView::new(&b).unwrap();
    let relocs = v.relocs().unwrap();
    let mut it = relocs.iter();
    let b1 = it.next(&v).unwrap();
    assert_eq!(b1.image().VirtualAddress, 0x1000);
    assert_eq!(b1.image().SizeOfBlock, 10);
    assert_eq!(b1.blocks().len(), 1);
    assert_eq!(b1.rva_of(&b1.blocks()[0]), 0x1018);
    assert_eq!(b1.type_of(&b1.blocks()[0]), 10);
    let b2 = it.next(&v).unwrap();
    assert_eq!(b2.image().VirtualAddress, 0x2000);
    assert_eq!(b2.rva_of(&b2.blocks()[0]), 0x2018);
    assert_eq!(b2.type_of(&b2.blocks()[0]), 10);
    assert!(it.next(&v).is_none());
    // The emitted block sizes tile the directory's extent exactly.
    assert_eq!(b1.image().SizeOfBlock + b2.image().SizeOfBlock, 20);
}
