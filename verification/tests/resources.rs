//! Tests over the resource tree: a three-level directory chain ending in
//! one data leaf, named entries, the depth-bounded validator, and entry
//! through a 64-bit view.

use pelite::resources::Resources;
use pelite::resources::ResourceName;
use pelite::resources::ResourceEntry;
use pelite::pe64::peview::PeView;

fn put16(b: &mut Vec<u8>, off: usize, v: u16) {
    b[off..off + 2].copy_from_slice(&v.to_le_bytes());
}

fn put32(b: &mut Vec<u8>, off: usize, v: u32) {
    b[off..off + 4].copy_from_slice(&v.to_le_bytes());
}

fn put64(b: &mut Vec<u8>, off: usize, v: u64) {
    b[off..off + 8].copy_from_slice(&v.to_le_bytes());
}

const VBASE: u32 = 0x2200;

/// The tree `/#16/#1/#1033 -> data(42 bytes)`: three nested directories,
/// then a data entry whose image-absolute Rva points back into the slice.
fn resource_tree() -> Vec<u8> {
    let mut d = vec![0u8; 0x100];
    // root directory at 0: one id entry
    put16(&mut d, 12, 0); // NumberOfNamedEntries
    put16(&mut d, 14, 1); // NumberOfIdEntries
    put32(&mut d, 16, 16); // entry: id 16
    put32(&mut d, 20, 0x8000_0000 | 0x18); // child directory at 0x18
    // directory at 0x18: one id entry
    put16(&mut d, 0x18 + 14, 1);
    put32(&mut d, 0x28, 1); // entry: id 1
    put32(&mut d, 0x2C, 0x8000_0000 | 0x30); // child directory at 0x30
    // directory at 0x30: one id entry
    put16(&mut d, 0x30 + 14, 1);
    put32(&mut d, 0x40, 1033); // entry: id 1033
    put32(&mut d, 0x44, 0x48); // data entry at 0x48
    // data entry at 0x48
    put32(&mut d, 0x48, VBASE + 0x60); // OffsetToData: image-absolute
    put32(&mut d, 0x4C, 42); // Size
    put32(&mut d, 0x50, 1252); // CodePage
    for i in 0..42usize {
        d[0x60 + i] = i as u8;
    }
    d
}

#[test]
fn walk_to_data_entry() {
    let d = resource_tree();
    let res = Resources::new(&d, VBASE);
    let root = res.root();
    let dir = root.as_dir(&res).unwrap();
    let mut it = dir.iter(&res);
    let e16 = it.next(&res).unwrap();
    assert!(matches!(e16.name(&res), ResourceName::Id(16)));
    assert!(it.next(&res).is_none());
    assert!(e16.is_dir());
    let dir16 = match e16.entry(&res) {
        ResourceEntry::Directory(dir) => dir,
        ResourceEntry::DataEntry(_) => panic!("#16 must be a directory"),
    };
    let mut it = dir16.iter(&res);
    let e1 = it.next(&res).unwrap();
    assert!(matches!(e1.name(&res), ResourceName::Id(1)));
    let dir1 = e1.as_dir(&res).unwrap();
    let mut it = dir1.iter(&res);
    let e1033 = it.next(&res).unwrap();
    assert!(matches!(e1033.name(&res), ResourceName::Id(1033)));
    assert!(!e1033.is_dir());
    assert!(e1033.as_dir(&res).is_none());
    let data = e1033.as_data(&res).unwrap();
    assert_eq!(data.image().CodePage, 1252);
    assert_eq!(data.image().Size, 42);
    let bytes = data.data(&res).unwrap();
    assert_eq!(bytes.len(), 42);
    assert_eq!(bytes[41], 41);
}

#[test]
fn find_by_id_and_name() {
    let mut d = resource_tree();
    // Give the root a named entry before the id entry: "ABC" at 0x90.
    put16(&mut d, 12, 1);
    // Move the id entry to the second slot and put the named one first.
    put32(&mut d, 24, 16);
    put32(&mut d, 28, 0x8000_0000 | 0x18);
    put32(&mut d, 16, 0x8000_0000 | 0x90);
    put32(&mut d, 20, 0x48); // named entry points at the data entry
    put16(&mut d, 0x90, 3);
    put16(&mut d, 0x92, 'A' as u16);
    put16(&mut d, 0x94, 'B' as u16);
    put16(&mut d, 0x96, 'C' as u16);
    let res = Resources::new(&d, VBASE);
    let root = res.root().as_dir(&res).unwrap();
    let named = root.find(&res, &ResourceName::Name(vec!['A' as u16, 'B' as u16, 'C' as u16]));
    match named.unwrap().name(&res) {
        ResourceName::Name(w) => assert_eq!(w, vec!['A' as u16, 'B' as u16, 'C' as u16]),
        ResourceName::Id(_) => panic!("expected the named entry"),
    }
    let by_id = root.find(&res, &ResourceName::Id(16));
    assert!(by_id.unwrap().is_dir());
    assert!(root.find(&res, &ResourceName::Id(99)).is_none());
    assert!(root.find(&res, &ResourceName::Name(vec!['A' as u16])).is_none());
}

#[test]
fn validate_accepts_tree_within_depth() {
    let d = resource_tree();
    let res = Resources::new(&d, VBASE);
    let root = res.root();
    assert!(root.validate(&res, 32));
    assert!(root.validate(&res, 3));
}

#[test]
fn validate_rejects_exhausted_depth() {
    let d = resource_tree();
    let res = Resources::new(&d, VBASE);
    let root = res.root();
    assert!(!root.validate(&res, 2));
    assert!(!root.validate(&res, 0));
}

#[test]
fn validate_rejects_cycle() {
    // A directory whose single entry points back at itself.
    let mut d = vec![0u8; 0x40];
    put16(&mut d, 14, 1);
    put32(&mut d, 16, 7);
    put32(&mut d, 20, 0x8000_0000); // child directory at offset 0: a cycle
    let res = Resources::new(&d, 0x1000);
    let root = res.root();
    assert!(!root.validate(&res, 32));
    assert!(!root.validate(&res, 1000));
}

#[test]
fn data_escaping_slice_is_absent() {
    let mut d = resource_tree();
    put32(&mut d, 0x48, VBASE - 0x10); // OffsetToData below the base
    let res = Resources::new(&d, VBASE);
    let root = res.root().as_dir(&res).unwrap();
    let e16 = root.find(&res, &ResourceName::Id(16)).unwrap();
    let dir16 = e16.as_dir(&res).unwrap();
    let e1 = dir16.iter(&res).next(&res).unwrap();
    let e1033 = e1.as_dir(&res).unwrap().iter(&res).next(&res).unwrap();
    assert!(e1033.as_data(&res).unwrap().data(&res).is_none());
    // A size running past the end of the slice is also absent.
    let mut d = resource_tree();
    put32(&mut d, 0x4C, 0x200);
    let res = Resources::new(&d, VBASE);
    let root = res.root().as_dir(&res).unwrap();
    let e16 = root.find(&res, &ResourceName::Id(16)).unwrap();
    let e1 = e16.as_dir(&res).unwrap().iter(&res).next(&res).unwrap();
    let e1033 = e1.as_dir(&res).unwrap().iter(&res).next(&res).unwrap();
    assert!(e1033.as_data(&res).unwrap().data(&res).is_none());
}

#[test]
fn read_slice_of_resources() {
    let d = resource_tree();
    let res = Resources::new(&d, VBASE);
    assert_eq!(res.len(), 0x100);
    assert_eq!(res.read_slice(0x60, 3), &[0, 1, 2]);
}

#[test]
fn resources_through_view() {
    // A 64-bit mapped image whose resource directory holds the tree.
    let mut b = vec![0u8; 0x3000];
    put16(&mut b, 0, 0x5A4D);
    put32(&mut b, 0x3C, 0x40);
    put32(&mut b, 0x40, 0x4550);
    put16(&mut b, 0x44, 0x8664);
    put16(&mut b, 0x46, 1);
    put16(&mut b, 0x54, 240);
    put16(&mut b, 0x58, 0x20B);
    put64(&mut b, 0x58 + 24, 0x1_4000_0000);
    put32(&mut b, 0x58 + 56, 0x3000);
    put32(&mut b, 0x58 + 60, 0x200);
    put32(&mut b, 0x58 + 108, 16);
    put32(&mut b, 0x148 + 8, 0x2000);
    put32(&mut b, 0x148 + 12, 0x1000);
    put32(&mut b, 0x148 + 16, 0x2000);
    put32(&mut b, 0x148 + 20, 0x400);
    put32(&mut b, 0xD8, VBASE); // resource directory Rva (slot 2)
    put32(&mut b, 0xDC, 0x100); // resource directory size
    let tree = resource_tree();
    b[VBASE as usize..VBASE as usize + 0x100].copy_from_slice(&tree);
    let v = PeView::new(&b).unwrap();
    let res = v.resources().unwrap();
    let root = res.root();
    assert!(root.validate(&res, 32));
    let dir = root.as_dir(&res).unwrap();
    let e16 = dir.iter(&res).next(&res).unwrap();
    assert!(matches!(e16.name(&res), ResourceName::Id(16)));
}
