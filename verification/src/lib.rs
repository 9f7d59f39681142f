//! Read-only, zero-copy inspection of Portable Executable (PE) images.
//!
//! A byte buffer holding the *mapped* form of a PE image -- every section
//! at its virtual offset -- is wrapped in a view, and the principal
//! directories are decoded straight out of that buffer: imports, exports,
//! base relocations, and the recursive resource tree.  A loader turns a
//! file's on-disk bytes into such a mapped buffer.  The 32-bit and 64-bit
//! flavours of the format live in parallel modules with identical
//! interfaces.
//!
//! The meaning of the bytes is given by spec functions over `Seq<u8>`:
//! little-endian words, the records of [`image`], and the navigation from
//! the DOS header to the section and directory tables.  Every reader is
//! proved to return exactly what those spec functions describe, and every
//! read is proved to stay inside the buffer.  PE is self-referential --
//! structures hold relative virtual addresses back into the same buffer --
//! so each decoder states, as a well-formedness predicate, what it assumes
//! of the region it walks; a caller of a decoder vouches for those
//! assumptions, and a buffer produced by the loader or accepted by the
//! view's validating constructor is proved to satisfy the view-level ones.

#![allow(non_snake_case)]

pub mod bytes;
pub mod image;
pub mod pe32;
pub mod pe64;
pub mod resources;
