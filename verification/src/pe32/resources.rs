//! Entry into the resource tree of a 32-bit image.

use vstd::prelude::*;
use crate::image::spec_data_directory;
use crate::image::IMAGE_DIRECTORY_ENTRY_RESOURCE;
use crate::resources::Resources;
use super::peview::PeView;
use super::peview::spec_num_dirs;
use super::peview::spec_dirs_off;

verus! {

impl<'a> PeView<'a> {
    /// The resources filesystem, present iff the resource data-directory
    /// slot exists and holds a non-zero Rva.  The slice of the directory's
    /// extent is taken here; the caller vouches that it lies within the
    /// buffer.
    pub fn resources(&self) -> (r: Option<Resources<'a>>)
        requires
            ({
                let dd = spec_data_directory(
                    self@,
                    spec_dirs_off(self@) + 8 * IMAGE_DIRECTORY_ENTRY_RESOURCE,
                );
                spec_num_dirs(self@) > IMAGE_DIRECTORY_ENTRY_RESOURCE && dd.VirtualAddress != 0
                    ==> dd.VirtualAddress + dd.Size <= self@.len()
            }),
        ensures
            r is Some <==> spec_num_dirs(self@) > IMAGE_DIRECTORY_ENTRY_RESOURCE
                && spec_data_directory(
                self@,
                spec_dirs_off(self@) + 8 * IMAGE_DIRECTORY_ENTRY_RESOURCE,
            ).VirtualAddress != 0,
            r matches Some(res) ==> ({
                let dd = spec_data_directory(
                    self@,
                    spec_dirs_off(self@) + 8 * IMAGE_DIRECTORY_ENTRY_RESOURCE,
                );
                &&& res@ == self@.subrange(
                    dd.VirtualAddress as int,
                    dd.VirtualAddress + dd.Size,
                )
                &&& res.spec_vbase() == dd.VirtualAddress
            }),
    {
        let dirs = self.data_directory();
        if dirs.len() <= IMAGE_DIRECTORY_ENTRY_RESOURCE {
            return None;
        }
        let dd = dirs[IMAGE_DIRECTORY_ENTRY_RESOURCE];
        if dd.VirtualAddress == 0 {
            return None;
        }
        match self.read_bytes(dd.VirtualAddress, dd.Size as usize) {
            Some(slice) => Some(Resources::new(slice, dd.VirtualAddress)),
            None => unreached(),
        }
    }
}

} // verus!
