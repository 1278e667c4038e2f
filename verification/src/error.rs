//! The failures of provisioning and installing.

use vstd::prelude::*;

verus! {

/// The local operation that failed.
#[derive(Clone, Copy, Debug, PartialEq, Eq, Structural)]
pub enum IoFailure {
    /// The cached file could not be opened.
    OpenFile,
    /// A file did not parse as an archive.
    CorruptArchive,
    /// The directory for the cache file could not be created.
    CreateDir,
    /// Unpacking the archive failed.
    Extract,
    /// The unpacked directory could not be renamed to its final name.
    Rename,
}

/// Why no distribution was provisioned or installed.
#[derive(Debug)]
pub enum DistroError {
    /// Fetching from the remote source failed. Carries the text of the version
    /// that was asked for.
    Download { version: String },
    /// A local operation failed.
    Io(IoFailure),
}

/// A failure with its text as a sequence of characters.
pub enum DistroErrorView {
    Download { version: Seq<char> },
    Io(IoFailure),
}

impl View for DistroError {
    type V = DistroErrorView;

    open spec fn view(&self) -> DistroErrorView {
        match *self {
            DistroError::Download { version } => DistroErrorView::Download { version: version@ },
            DistroError::Io(failure) => DistroErrorView::Io(failure),
        }
    }
}

} // verus!
