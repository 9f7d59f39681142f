//! PE32 binary images: the 32-bit flavour of the format.

pub mod image;
pub mod peview;
pub mod pefile;
pub mod imports;
pub mod exports;
pub mod relocs;
pub mod resources;
