//! What the provisioning logic knows of an archive, of the cache file and of
//! the progress of an extraction.

use vstd::prelude::*;

verus! {

/// The sizes that an opened archive reports.
#[derive(Clone, Copy, Debug, PartialEq, Eq, Structural)]
pub struct ArchiveInfo {
    /// Size of the archive file itself.
    pub compressed_size: u64,
    /// Size of the unpacked contents, where the container records it.
    pub uncompressed_size: Option<u64>,
}

impl ArchiveInfo {
    /// The total against which extraction progress is measured.
    pub open spec fn spec_progress_total(self) -> u64 {
        match self.uncompressed_size {
            Some(size) => size,
            None => self.compressed_size,
        }
    }

    /// The total against which extraction progress is measured: the
    /// uncompressed size if the archive records one, else the compressed size.
    #[verifier::when_used_as_spec(spec_progress_total)]
    pub fn progress_total(self) -> (total: u64)
        ensures
            total == self.spec_progress_total(),
    {
        match self.uncompressed_size {
            Some(size) => size,
            None => self.compressed_size,
        }
    }
}

/// What looking at the cache path found.
#[derive(Clone, Copy, Debug, PartialEq, Eq, Structural)]
pub enum CacheProbe {
    /// Nothing is at the path, or what is there is no regular file.
    NotAFile,
    /// A regular file that could not be opened.
    Unreadable,
    /// An opened file whose contents do not parse as an archive: empty,
    /// truncated or otherwise damaged.
    Malformed,
    /// An opened file whose contents parse as an archive.
    WellFormed,
}

/// Whether a cached file can stand in for a download. Only a file that exists,
/// opens and parses as an archive can; every other finding means that the
/// distribution is fetched again. The test is one of form alone: the contents
/// are held against no checksum and no signature.
pub open spec fn spec_distro_is_valid(probe: CacheProbe) -> bool {
    probe == CacheProbe::WellFormed
}

/// Whether a cached file can stand in for a download.
#[verifier::when_used_as_spec(spec_distro_is_valid)]
pub fn distro_is_valid(probe: CacheProbe) -> (valid: bool)
    ensures
        valid == spec_distro_is_valid(probe),
{
    match probe {
        CacheProbe::WellFormed => true,
        _ => false,
    }
}

/// The sum of a run of byte counts.
pub open spec fn total_read(increments: Seq<u64>) -> nat
    decreases increments.len(),
{
    if increments.len() == 0 {
        0
    } else {
        total_read(increments.drop_last()) + increments.last() as nat
    }
}

/// The count that a tally holds: what was read so far, held at the largest
/// number that fits once that is passed.
pub open spec fn clamped(read: nat) -> u64 {
    if read <= u64::MAX {
        read as u64
    } else {
        u64::MAX
    }
}

/// The state of a progress display: how much is expected and how much has been
/// reported.
#[derive(Debug)]
pub struct Progress {
    /// What is shown beside the count.
    pub label: String,
    /// The byte count at which the work is complete.
    pub total: u64,
    /// The byte count reported so far.
    pub position: u64,
}

impl Progress {
    /// A display with nothing reported yet.
    pub fn new(label: String, total: u64) -> (progress: Progress)
        ensures
            progress.label == label,
            progress.total == total,
            progress.position == 0,
    {
        Progress { label, total, position: 0 }
    }

    /// The display after one more report of `read` bytes.
    pub open spec fn after(self, read: u64) -> Progress {
        Progress { position: clamped(self.position as nat + read as nat), ..self }
    }

    /// The display after a run of reports, in order.
    pub open spec fn after_all(self, increments: Seq<u64>) -> Progress
        decreases increments.len(),
    {
        if increments.len() == 0 {
            self
        } else {
            self.after_all(increments.drop_last()).after(increments.last())
        }
    }

    /// Accounts for `read` more bytes.
    pub fn inc(&mut self, read: u64)
        ensures
            *final(self) == old(self).after(read),
    {
        self.position = self.position.saturating_add(read);
    }
}

} // verus!
