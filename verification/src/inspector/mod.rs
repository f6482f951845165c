//! Inspectors: the sources from which the layers of an image can be read.
//! The probe and the access decision only hand over to them.

pub mod docker_archive;

use vstd::prelude::*;

verus! {

/// One layer of an image.
#[derive(Clone, Debug, PartialEq, Eq)]
pub struct LayerInfo {
    pub id: String,
}

/// An image: the reference it was asked for by, and its layers from the
/// base up.
#[derive(Clone, Debug, PartialEq, Eq)]
pub struct ImageInfo {
    pub image: String,
    pub layers: Vec<LayerInfo>,
}

/// One file of a layer.
#[derive(Clone, Debug, PartialEq, Eq)]
pub struct FileEntry {
    pub path: String,
}

/// Why an inspector gave no answer.
#[derive(Clone, Copy, Debug, PartialEq, Eq, Structural)]
pub enum InspectError {
    /// This inspector cannot read images yet.
    NotAvailable,
}

/// A source of image data.
pub trait Inspector {
    /// The image that a reference names.
    fn inspect(&mut self, image: &str) -> Result<ImageInfo, InspectError>;

    /// The files of one layer.
    fn list_files(&mut self, layer: &LayerInfo) -> Result<Vec<FileEntry>, InspectError>;
}

} // verus!
