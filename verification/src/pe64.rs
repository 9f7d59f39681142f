//! PE64 (also known as PE32+) binary images.

pub mod image;
pub mod peview;
pub mod pefile;
pub mod imports;
pub mod exports;
pub mod relocs;
pub mod resources;
