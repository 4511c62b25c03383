use vstd::prelude::*;

verus! {

/// Folders where diagnostic images and files are kept.
#[derive(Debug, Clone, Copy, PartialEq, Eq, Structural)]
pub enum DatasetDir {
    Root,
    Minimap,
    Rune,
}

impl DatasetDir {
    /// The folder's path relative to the directory of the executable.
    pub fn to_folder(&self) -> (r: &'static str)
        ensures
            *self == DatasetDir::Root ==> r@ == "dataset"@,
            *self == DatasetDir::Minimap ==> r@ == "dataset/minimap"@,
            *self == DatasetDir::Rune ==> r@ == "dataset/rune"@,
    {
        match self {
            DatasetDir::Root => "dataset",
            DatasetDir::Minimap => "dataset/minimap",
            DatasetDir::Rune => "dataset/rune",
        }
    }
}

} // verus!
