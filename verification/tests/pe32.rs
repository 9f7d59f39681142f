//! Tests over the 32-bit flavour: the import decoder on a synthesized
//! mapped image, and the file loader on synthesized on-disk bytes.

use pelite::pe32::peview::PeView;
use pelite::pe32::pefile::PeFile;
use pelite::pe32::pefile::PeError;
use pelite::pe32::imports::ImportedSymbol;
use pelite::pe32::exports::Export;

fn put16(b: &mut Vec<u8>, off: usize, v: u16) {
    b[off..off + 2].copy_from_slice(&v.to_le_bytes());
}

fn put32(b: &mut Vec<u8>, off: usize, v: u32) {
    b[off..off + 4].copy_from_slice(&v.to_le_bytes());
}

fn put_cstr(b: &mut Vec<u8>, off: usize, s: &[u8]) {
    b[off..off + s.len()].copy_from_slice(s);
    b[off + s.len()] = 0;
}

/// A minimal mapped PE32 image with one section.
fn mapped_image() -> Vec<u8> {
    let mut b = vec![0u8; 0x3000];
    put16(&mut b, 0, 0x5A4D);
    put32(&mut b, 0x3C, 0x40);
    put32(&mut b, 0x40, 0x4550);
    put16(&mut b, 0x44, 0x014C);
    put16(&mut b, 0x46, 1); // NumberOfSections
    put16(&mut b, 0x54, 224); // SizeOfOptionalHeader
    put16(&mut b, 0x58, 0x10B); // optional magic
    put32(&mut b, 0x58 + 28, 0x40_0000); // ImageBase
    put32(&mut b, 0x58 + 56, 0x3000); // SizeOfImage
    put32(&mut b, 0x58 + 60, 0x200); // SizeOfHeaders
    put32(&mut b, 0x58 + 92, 16); // NumberOfRvaAndSizes
    // one section header at 0x138
    put32(&mut b, 0x138 + 8, 0x2000); // VirtualSize
    put32(&mut b, 0x138 + 12, 0x1000); // VirtualAddress
    put32(&mut b, 0x138 + 16, 0x2000); // SizeOfRawData
    put32(&mut b, 0x138 + 20, 0x400); // PointerToRawData
    b
}

/// The image importing KERNEL32.dll!GetProcAddress by name and
/// USER32.dll ordinal 42.
fn image_with_imports() -> Vec<u8> {
    let mut b = mapped_image();
    put32(&mut b, 0xC0, 0x1000); // import directory Rva (slot 1)
    put32(&mut b, 0xC4, 60); // import directory size
    // first descriptor
    put32(&mut b, 0x1000, 0x1040); // OriginalFirstThunk
    put32(&mut b, 0x100C, 0x1100); // Name
    put32(&mut b, 0x1010, 0x1060); // FirstThunk
    // second descriptor
    put32(&mut b, 0x1014, 0x1070); // OriginalFirstThunk
    put32(&mut b, 0x1020, 0x1120); // Name
    put32(&mut b, 0x1024, 0x1070); // FirstThunk
    // the all-zero sentinel descriptor at 0x1028 is already there
    put32(&mut b, 0x1040, 0x1080); // INT: hint/name at 0x1080
    put32(&mut b, 0x1060, 0x1080); // IAT: on-disk copy of the INT
    put32(&mut b, 0x1070, 0x8000_002A); // INT: ordinal 42
    put16(&mut b, 0x1080, 0x0123); // hint
    put_cstr(&mut b, 0x1082, b"GetProcAddress");
    put_cstr(&mut b, 0x1100, b"KERNEL32.dll");
    put_cstr(&mut b, 0x1120, b"USER32.dll");
    b
}

/// A minimal on-disk PE32 file: headers within the first 0x200 bytes and
/// one section whose 0x80 raw bytes live at file offset 0x200.
fn loader_file() -> Vec<u8> {
    let mut f = vec![0u8; 0x280];
    put16(&mut f, 0, 0x5A4D);
    put32(&mut f, 0x3C, 0x40);
    put32(&mut f, 0x40, 0x4550);
    put16(&mut f, 0x46, 1); // NumberOfSections
    put16(&mut f, 0x54, 224); // SizeOfOptionalHeader
    put16(&mut f, 0x58, 0x10B);
    put32(&mut f, 0x58 + 28, 0x40_0000); // ImageBase
    put32(&mut f, 0x58 + 56, 0x2000); // SizeOfImage
    put32(&mut f, 0x58 + 60, 0x200); // SizeOfHeaders
    put32(&mut f, 0x58 + 92, 16); // NumberOfRvaAndSizes
    put32(&mut f, 0x138 + 8, 0x100); // VirtualSize
    put32(&mut f, 0x138 + 12, 0x1000); // VirtualAddress
    put32(&mut f, 0x138 + 16, 0x80); // SizeOfRawData
    put32(&mut f, 0x138 + 20, 0x200); // PointerToRawData
    for i in 0..0x80usize {
        f[0x200 + i] = (i as u8) ^ 0xA5;
    }
    f
}

#[test]
fn pe32_exports_and_relocs() {
    let mut b = mapped_image();
    // export directory in slot 0: one symbol, `hi` at ordinal 1
    put32(&mut b, 0xB8, 0x1000);
    put32(&mut b, 0xBC, 0x100);
    put32(&mut b, 0x1000 + 16, 1); // Base
    put32(&mut b, 0x1000 + 20, 1); // NumberOfFunctions
    put32(&mut b, 0x1000 + 24, 1); // NumberOfNames
    put32(&mut b, 0x1000 + 28, 0x1040); // AddressOfFunctions
    put32(&mut b, 0x1000 + 32, 0x1050); // AddressOfNames
    put32(&mut b, 0x1000 + 36, 0x1058); // AddressOfNameOrdinals
    put32(&mut b, 0x1040, 0x2000);
    put32(&mut b, 0x1050, 0x1060);
    put_cstr(&mut b, 0x1060, b"hi");
    // one relocation block in slot 5
    put32(&mut b, 0xE0, 0x2100);
    put32(&mut b, 0xE4, 10);
    put32(&mut b, 0x2100, 0x1000);
    put32(&mut b, 0x2104, 10);
    put16(&mut b, 0x2108, 0x3010); // HIGHLOW at offset 0x10
    let v = PeView::new(&b).unwrap();
    let e = v.exports().unwrap();
    match e.symbol_by_name(&v, b"hi") {
        Export::Symbol(rva) => assert_eq!(rva, 0x2000),
        _ => panic!("hi must be a plain symbol"),
    }
    let relocs = v.relocs().unwrap();
    assert!(relocs.validate(&v));
    let mut it = relocs.iter();
    let blk = it.next(&v).unwrap();
    assert_eq!(blk.rva_of(&blk.blocks()[0]), 0x1010);
    assert_eq!(blk.type_of(&blk.blocks()[0]), 3);
    assert!(it.next(&v).is_none());
}

#[test]
fn pe32_view_accepts_valid_image() {
    let b = mapped_image();
    assert!(PeView::new(&b).is_some());
    let v = PeView::new(&b).unwrap();
    assert_eq!(v.optional_header().Magic, 0x10B);
    assert_eq!(v.optional_header().ImageBase, 0x40_0000);
    assert_eq!(v.virtual_base(), 0x40_0000);
}

#[test]
fn pe32_va_conversion() {
    let b = mapped_image();
    let v = PeView::new(&b).unwrap();
    assert_eq!(v.rva_to_va(0x1000), 0x40_1000);
    assert_eq!(v.va_to_rva(0x40_1000), Some(0x1000));
    assert_eq!(v.va_to_rva(0x1000), None);
    assert_eq!(v.va_to_rva(0), Some(0));
}

#[test]
fn imports_absent_when_slot_empty() {
    let b = mapped_image();
    let v = PeView::new(&b).unwrap();
    assert!(v.imports().is_none());
}

#[test]
fn one_import_by_name() {
    let b = image_with_imports();
    let v = PeView::new(&b).unwrap();
    let imports = v.imports().unwrap();
    let mut it = imports.iter();
    let desc = it.next(&v).unwrap();
    assert_eq!(desc.dll_name(&v), b"KERNEL32.dll");
    let mut int = desc.int_iter();
    match int.next(&v).unwrap() {
        ImportedSymbol::ByName { hint, name } => {
            assert_eq!(hint, 0x0123);
            assert_eq!(name.as_slice(), b"GetProcAddress");
        }
        _ => panic!("expected an import by name"),
    }
    assert!(int.next(&v).is_none());
    let mut iat = desc.iat_iter();
    assert_eq!(iat.next(&v), Some(0x1080));
    assert_eq!(iat.next(&v), None);
}

#[test]
fn import_by_ordinal_and_sentinel() {
    let b = image_with_imports();
    let v = PeView::new(&b).unwrap();
    let imports = v.imports().unwrap();
    let mut it = imports.iter();
    let _first = it.next(&v).unwrap();
    let second = it.next(&v).unwrap();
    assert_eq!(second.dll_name(&v), b"USER32.dll");
    let mut int = second.int_iter();
    match int.next(&v).unwrap() {
        ImportedSymbol::ByOrdinal { ord } => assert_eq!(ord, 42),
        _ => panic!("expected an import by ordinal"),
    }
    assert!(int.next(&v).is_none());
    assert!(it.next(&v).is_none());
    assert!(it.next(&v).is_none());
}

#[test]
fn loader_maps_sections() {
    let f = loader_file();
    let pe = PeFile::load(&f).unwrap();
    let v = pe.view_of();
    let img = v.image();
    assert_eq!(img.len(), 0x2000);
    // Headers are copied to offset 0.
    assert_eq!(&img[..0x200], &f[..0x200]);
    // The section's raw data lands at its virtual offset.
    assert_eq!(&img[0x1000..0x1080], &f[0x200..0x280]);
    // Everything else is zero-filled.
    assert!(img[0x200..0x1000].iter().all(|&x| x == 0));
    assert!(img[0x1080..].iter().all(|&x| x == 0));
    assert_eq!(v.virtual_base(), 0x40_0000);
    assert_eq!(v.rva_to_file_offset(0x1000), Some(0x200));
    assert_eq!(v.file_offset_to_rva(0x200), 0x1000);
}

#[test]
fn loader_skips_section_without_raw_data() {
    let mut f = loader_file();
    put32(&mut f, 0x138 + 20, 0); // PointerToRawData = 0
    let pe = PeFile::load(&f).unwrap();
    let v = pe.view_of();
    assert!(v.image()[0x1000..0x1080].iter().all(|&x| x == 0));
}

#[test]
fn loader_rejects_swapped_dos_magic() {
    let mut f = loader_file();
    f[0] = 0x5A;
    f[1] = 0x4D;
    assert!(matches!(PeFile::load(&f), Err(PeError::BadMagic)));
}

#[test]
fn loader_rejects_two_hundred_sections() {
    let mut f = loader_file();
    put16(&mut f, 0x46, 200);
    assert!(matches!(PeFile::load(&f), Err(PeError::Insanity)));
}

#[test]
fn loader_rejects_short_file() {
    assert!(matches!(PeFile::load(&[]), Err(PeError::Io)));
    assert!(matches!(PeFile::load(&loader_file()[..0x30]), Err(PeError::Io)));
    // Valid DOS header, but the file ends before the NT headers.
    assert!(matches!(PeFile::load(&loader_file()[..0x100]), Err(PeError::Io)));
    // The file ends before the section's raw data.
    assert!(matches!(PeFile::load(&loader_file()[..0x240]), Err(PeError::Io)));
}

#[test]
fn loader_rejects_bad_lfanew() {
    let mut f = loader_file();
    put32(&mut f, 0x3C, 0);
    assert!(matches!(PeFile::load(&f), Err(PeError::Insanity)));
    let mut f = loader_file();
    put32(&mut f, 0x3C, 0x204);
    assert!(matches!(PeFile::load(&f), Err(PeError::Insanity)));
}

#[test]
fn loader_rejects_bad_signature_and_magic() {
    let mut f = loader_file();
    put32(&mut f, 0x40, 0x4551);
    assert!(matches!(PeFile::load(&f), Err(PeError::BadMagic)));
    let mut f = loader_file();
    put16(&mut f, 0x58, 0x20B);
    assert!(matches!(PeFile::load(&f), Err(PeError::BadMagic)));
}

#[test]
fn loader_rejects_insane_headers() {
    let mut f = loader_file();
    put32(&mut f, 0x58 + 60, 0x1001); // SizeOfHeaders too large
    assert!(matches!(PeFile::load(&f), Err(PeError::Insanity)));
    let mut f = loader_file();
    put32(&mut f, 0x58 + 92, 17); // too many data directories
    assert!(matches!(PeFile::load(&f), Err(PeError::Insanity)));
    let mut f = loader_file();
    put16(&mut f, 0x54, 200); // SizeOfOptionalHeader too small
    assert!(matches!(PeFile::load(&f), Err(PeError::Insanity)));
    let mut f = loader_file();
    put32(&mut f, 0x58 + 60, 0x150); // section headers end past SizeOfHeaders
    assert!(matches!(PeFile::load(&f), Err(PeError::Insanity)));
    let mut f = loader_file();
    put32(&mut f, 0x58 + 56, 0x100); // SizeOfImage below SizeOfHeaders
    assert!(matches!(PeFile::load(&f), Err(PeError::Insanity)));
}

#[test]
fn loader_rejects_bad_sections() {
    let mut f = loader_file();
    put32(&mut f, 0x138 + 12, 0x100); // VirtualAddress below the headers
    assert!(matches!(PeFile::load(&f), Err(PeError::Insanity)));
    let mut f = loader_file();
    put32(&mut f, 0x138 + 8, 0); // VirtualSize of zero
    assert!(matches!(PeFile::load(&f), Err(PeError::Insanity)));
    let mut f = loader_file();
    put32(&mut f, 0x138 + 16, 0x4000); // raw data would escape the image
    assert!(matches!(PeFile::load(&f), Err(PeError::Insanity)));
}
