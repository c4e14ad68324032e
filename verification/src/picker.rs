//! What the file dialog is asked to offer.

use vstd::prelude::*;

verus! {

/// One filter of a file dialog: a label for the user, and the file name
/// extensions, without the dot, that pass it.
#[derive(Debug, PartialEq, Eq)]
pub struct FileFilter {
    pub label: String,
    pub extensions: Vec<String>,
}

/// A filter as the contracts see it.
pub struct FileFilterModel {
    pub label: Seq<char>,
    pub extensions: Seq<Seq<char>>,
}

impl View for FileFilter {
    type V = FileFilterModel;

    open spec fn view(&self) -> FileFilterModel {
        FileFilterModel {
            label: self.label@,
            extensions: Seq::new(self.extensions@.len(), |i: int| self.extensions@[i]@),
        }
    }
}

/// The one filter of this application: PNG pictures and nothing else.
pub open spec fn supported_files() -> FileFilterModel {
    FileFilterModel { label: "Supported files"@, extensions: seq!["png"@] }
}

impl FileFilter {
    /// Builds the filter that the file dialog is opened with.
    pub fn supported() -> (filter: FileFilter)
        ensures
            filter@ == supported_files(),
    {
        let mut extensions: Vec<String> = Vec::new();
        extensions.push("png".to_owned());
        let filter = FileFilter { label: "Supported files".to_owned(), extensions };
        assert(filter@.extensions =~= supported_files().extensions);
        filter
    }
}

} // verus!
