//! Exact-value tests of the little-endian readers and the record parsers.

use pelite::bytes::read_u16;
use pelite::bytes::read_u32;
use pelite::bytes::read_u64;
use pelite::bytes::read_cstr;
use pelite::bytes::bytes_eq;
use pelite::bytes::words_eq;
use pelite::image::read_file_header;
use pelite::image::read_data_directory;
use pelite::image::read_import_descriptor;
use pelite::image::read_export_directory;
use pelite::image::read_section_header;
use pelite::image::read_dos_header;

#[test]
fn little_endian_reads() {
    let b = [0x01u8, 0x02, 0x03, 0x04, 0x05, 0x06, 0x07, 0x08];
    assert_eq!(read_u16(&b, 0), 0x0201);
    assert_eq!(read_u16(&b, 6), 0x0807);
    assert_eq!(read_u32(&b, 0), 0x04030201);
    assert_eq!(read_u32(&b, 4), 0x08070605);
    assert_eq!(read_u64(&b, 0), 0x0807060504030201);
}

#[test]
fn cstr_reads() {
    let b = [b'a', b'b', 0, b'c', 0];
    assert_eq!(read_cstr(&b, 0), b"ab");
    assert_eq!(read_cstr(&b, 1), b"b");
    assert_eq!(read_cstr(&b, 2), b"");
    assert_eq!(read_cstr(&b, 3), b"c");
}

#[test]
fn slice_comparisons() {
    assert!(bytes_eq(b"abc", b"abc"));
    assert!(!bytes_eq(b"abc", b"abd"));
    assert!(!bytes_eq(b"abc", b"ab"));
    assert!(bytes_eq(b"", b""));
    assert!(words_eq(&[1u16, 2], &[1u16, 2]));
    assert!(!words_eq(&[1u16, 2], &[1u16, 3]));
    assert!(!words_eq(&[1u16], &[1u16, 2]));
}

fn put16(b: &mut Vec<u8>, off: usize, v: u16) {
    b[off..off + 2].copy_from_slice(&v.to_le_bytes());
}

fn put32(b: &mut Vec<u8>, off: usize, v: u32) {
    b[off..off + 4].copy_from_slice(&v.to_le_bytes());
}

#[test]
fn file_header_fields() {
    let mut b = vec![0u8; 20];
    put16(&mut b, 0, 0x8664);
    put16(&mut b, 2, 7);
    put32(&mut b, 4, 0x5F00_0000);
    put16(&mut b, 16, 240);
    put16(&mut b, 18, 0x2022);
    let h = read_file_header(&b, 0);
    assert_eq!(h.Machine, 0x8664);
    assert_eq!(h.NumberOfSections, 7);
    assert_eq!(h.TimeDateStamp, 0x5F00_0000);
    assert_eq!(h.SizeOfOptionalHeader, 240);
    assert_eq!(h.Characteristics, 0x2022);
}

#[test]
fn dos_header_fields() {
    let mut b = vec![0u8; 64];
    put16(&mut b, 0, 0x5A4D);
    put16(&mut b, 2, 0x90);
    put16(&mut b, 28, 0x1111);
    put16(&mut b, 34, 0x4444);
    put32(&mut b, 60, 0xF8);
    let h = read_dos_header(&b, 0);
    assert_eq!(h.e_magic, 0x5A4D);
    assert_eq!(h.e_cblp, 0x90);
    assert_eq!(h.e_res[0], 0x1111);
    assert_eq!(h.e_res[3], 0x4444);
    assert_eq!(h.e_lfanew, 0xF8);
}

#[test]
fn directory_records() {
    let mut b = vec![0u8; 8];
    put32(&mut b, 0, 0x3000);
    put32(&mut b, 4, 0x200);
    let d = read_data_directory(&b, 0);
    assert_eq!(d.VirtualAddress, 0x3000);
    assert_eq!(d.Size, 0x200);

    let mut b = vec![0u8; 20];
    put32(&mut b, 0, 0x4000);
    put32(&mut b, 12, 0x4100);
    put32(&mut b, 16, 0x4200);
    let d = read_import_descriptor(&b, 0);
    assert_eq!(d.OriginalFirstThunk, 0x4000);
    assert_eq!(d.Name, 0x4100);
    assert_eq!(d.FirstThunk, 0x4200);

    let mut b = vec![0u8; 40];
    put32(&mut b, 16, 1);
    put32(&mut b, 20, 5);
    put32(&mut b, 24, 3);
    put32(&mut b, 28, 0x5000);
    let e = read_export_directory(&b, 0);
    assert_eq!(e.Base, 1);
    assert_eq!(e.NumberOfFunctions, 5);
    assert_eq!(e.NumberOfNames, 3);
    assert_eq!(e.AddressOfFunctions, 0x5000);
}

#[test]
fn section_header_fields() {
    let mut b = vec![0u8; 40];
    b[..5].copy_from_slice(b".text");
    put32(&mut b, 8, 0x1234);
    put32(&mut b, 12, 0x1000);
    put32(&mut b, 16, 0x1400);
    put32(&mut b, 20, 0x400);
    put32(&mut b, 36, 0x6000_0020);
    let s = read_section_header(&b, 0);
    assert_eq!(&s.Name[..5], b".text");
    assert_eq!(s.VirtualSize, 0x1234);
    assert_eq!(s.VirtualAddress, 0x1000);
    assert_eq!(s.SizeOfRawData, 0x1400);
    assert_eq!(s.PointerToRawData, 0x400);
    assert_eq!(s.Characteristics, 0x6000_0020);
}
