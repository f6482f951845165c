//! Reading layers from an archive written by `docker save`: no daemon is
//! needed, on any platform.

use crate::inspector::{FileEntry, ImageInfo, InspectError, Inspector, LayerInfo};
use vstd::prelude::*;

verus! {

/// An inspector that reads from an archive file.
#[derive(Debug)]
pub struct DockerArchiveInspector {
    archive_path: String,
}

impl DockerArchiveInspector {
    /// The path of the archive that this inspector reads.
    pub closed spec fn path(&self) -> Seq<char> {
        self.archive_path@
    }

    /// An inspector for the archive at `archive_path`.
    pub fn new(archive_path: String) -> (inspector: DockerArchiveInspector)
        ensures
            inspector.path() == archive_path@,
    {
        DockerArchiveInspector { archive_path }
    }

    /// The path of the archive that this inspector reads.
    pub fn archive_path(&self) -> (path: &str)
        ensures
            path@ == self.path(),
    {
        self.archive_path.as_str()
    }
}

impl Inspector for DockerArchiveInspector {
    /// Archives cannot be read yet: every image is answered with
    /// `NotAvailable`, and the inspector stays as it is.
    fn inspect(&mut self, image: &str) -> (found: Result<ImageInfo, InspectError>)
        ensures
            found == Err::<ImageInfo, InspectError>(InspectError::NotAvailable),
            final(self).path() == old(self).path(),
    {
        Err(InspectError::NotAvailable)
    }

    /// Archives cannot be read yet: every layer is answered with
    /// `NotAvailable`, and the inspector stays as it is.
    fn list_files(&mut self, layer: &LayerInfo) -> (files: Result<Vec<FileEntry>, InspectError>)
        ensures
            files == Err::<Vec<FileEntry>, InspectError>(InspectError::NotAvailable),
            final(self).path() == old(self).path(),
    {
        Err(InspectError::NotAvailable)
    }
}

} // verus!
