//! Installing a provisioned distribution.
//!
//! A version that the inventory holds is not installed again. Any other is
//! unpacked into the staging root, and the unpacked directory is then renamed
//! to its final name: whoever looks at the final name sees no tree or the
//! whole tree. An `Install` says which of the two steps is due; the caller
//! performs it and reports to `advance` whether it succeeded.
//!
//! Nothing here keeps two installations of one version from unpacking into the
//! same staging directory at the same time, and nothing removes what a failed
//! extraction left behind.

use crate::archive::Progress;
use crate::distro::YarnDistro;
use crate::error::{DistroError, IoFailure};
use crate::inventory::YarnCollection;
use crate::paths::{join, joined};
use crate::version::{precedence, version_string, version_text, Precedence};
use vstd::prelude::*;
use vstd::string::StringExecFns;

verus! {

/// How an installation ended.
#[derive(Debug)]
pub enum InstallOutcome {
    /// The version was installed before: nothing was done.
    AlreadyInstalled(semver::Version),
    /// The version was unpacked and promoted.
    Installed(semver::Version),
}

/// The step that the caller performs next.
#[derive(Clone, Copy, Debug, PartialEq, Eq, Structural)]
pub enum InstallAction {
    /// Unpack the archive into `staging_root`, reporting each chunk read to
    /// `progress`.
    Unpack,
    /// Rename `staged_dir` to `final_dir`.
    Promote,
}

/// An installation under way.
#[derive(Debug)]
pub struct Install {
    /// The version that is installed.
    pub version: semver::Version,
    /// The progress of the extraction.
    pub progress: Progress,
    /// The directory that the archive is unpacked into.
    pub staging_root: String,
    /// The directory that unpacking creates: the archive's top-level directory
    /// under the staging root.
    pub staged_dir: String,
    /// The directory of the installed version.
    pub final_dir: String,
    /// The step that is due.
    pub pending: InstallAction,
}

/// Where an installation stands.
#[derive(Debug)]
pub enum InstallStep {
    /// Another step is due.
    Pending(Install),
    /// The installation is over.
    Done(InstallOutcome),
    /// The installation failed, for good.
    Failed(DistroError),
}

impl InstallStep {
    /// The step that the caller is asked to perform, if any.
    pub open spec fn due(self) -> Option<InstallAction> {
        match self {
            InstallStep::Pending(install) => Some(install.pending),
            _ => None,
        }
    }

    /// Where the installation stands once the step that was due has succeeded
    /// (`ok`) or failed. What is over stays as it is.
    pub open spec fn after(self, ok: bool) -> InstallStep {
        match self {
            InstallStep::Pending(install) => install.next(ok),
            _ => self,
        }
    }

    /// Where the installation stands once the outcomes are reported in order.
    pub open spec fn after_all(self, oks: Seq<bool>) -> InstallStep
        decreases oks.len(),
    {
        if oks.len() == 0 {
            self
        } else {
            self.after(oks.first()).after_all(oks.drop_first())
        }
    }
}

/// The text beside the progress of a version's extraction.
pub open spec fn progress_label(version: semver::Version) -> Seq<char> {
    seq!['v'] + version_text(version)
}

impl Install {
    /// Whether this is the start of the installation of `distro` with these
    /// locations: the progress display is labelled with the version and
    /// expects the archive's uncompressed size, or its compressed size where
    /// the other is not known; nothing is reported yet; and unpacking is due.
    pub open spec fn begins(
        self,
        distro: YarnDistro,
        image_root_dir: Seq<char>,
        archive_root_dir_name: Seq<char>,
        image_dir: Seq<char>,
    ) -> bool {
        &&& self.version == distro@.version
        &&& self.progress.label@ == progress_label(distro@.version)
        &&& self.progress.total == distro@.archive.progress_total()
        &&& self.progress.position == 0
        &&& self.staging_root@ == image_root_dir
        &&& self.staged_dir@ == joined(image_root_dir, archive_root_dir_name)
        &&& self.final_dir@ == image_dir
        &&& self.pending == InstallAction::Unpack
    }

    /// Where the installation stands once the step that was due has succeeded
    /// (`ok`) or failed.
    ///
    /// Promotion becomes due when unpacking has succeeded, and at no other
    /// time. The version is installed when promotion has succeeded. A failure
    /// of either step ends the installation.
    pub open spec fn next(self, ok: bool) -> InstallStep {
        match (self.pending, ok) {
            (InstallAction::Unpack, true) => InstallStep::Pending(
                Install { pending: InstallAction::Promote, ..self },
            ),
            (InstallAction::Unpack, false) => InstallStep::Failed(
                DistroError::Io(IoFailure::Extract),
            ),
            (InstallAction::Promote, true) => InstallStep::Done(
                InstallOutcome::Installed(self.version),
            ),
            (InstallAction::Promote, false) => InstallStep::Failed(
                DistroError::Io(IoFailure::Rename),
            ),
        }
    }

    /// Takes the outcome of the step that was due and says where the
    /// installation stands now.
    pub fn advance(self, ok: bool) -> (now: InstallStep)
        ensures
            now == self.next(ok),
    {
        match (self.pending, ok) {
            (InstallAction::Unpack, true) => InstallStep::Pending(
                Install { pending: InstallAction::Promote, ..self },
            ),
            (InstallAction::Unpack, false) => InstallStep::Failed(
                DistroError::Io(IoFailure::Extract),
            ),
            (InstallAction::Promote, true) => InstallStep::Done(
                InstallOutcome::Installed(self.version),
            ),
            (InstallAction::Promote, false) => InstallStep::Failed(
                DistroError::Io(IoFailure::Rename),
            ),
        }
    }
}

impl YarnDistro {
    /// Whether `step` is what installing this distribution starts with, given
    /// the installed versions.
    ///
    /// With the version installed already, the installation is over at once
    /// and no step is asked for. Otherwise unpacking is due.
    pub open spec fn fetch_starts(
        self,
        installed: Set<Precedence>,
        image_root_dir: Seq<char>,
        archive_root_dir_name: Seq<char>,
        image_dir: Seq<char>,
        step: InstallStep,
    ) -> bool {
        if installed.contains(precedence(self@.version)) {
            step == InstallStep::Done(InstallOutcome::AlreadyInstalled(self@.version))
        } else {
            step matches InstallStep::Pending(install) && install.begins(
                self,
                image_root_dir,
                archive_root_dir_name,
                image_dir,
            )
        }
    }

    /// Starts installing this distribution. The archive is to be unpacked into
    /// `image_root_dir`, where it creates `archive_root_dir_name`, and that
    /// directory is to become `image_dir`. The collection is only read: to
    /// record a version that was installed is up to the caller.
    pub fn fetch(
        self,
        collection: &YarnCollection,
        image_root_dir: &str,
        archive_root_dir_name: &str,
        image_dir: &str,
    ) -> (step: InstallStep)
        ensures
            self.fetch_starts(
                collection@,
                image_root_dir@,
                archive_root_dir_name@,
                image_dir@,
                step,
            ),
    {
        if collection.contains(self.version()) {
            return InstallStep::Done(InstallOutcome::AlreadyInstalled(self.into_version()));
        }
        proof {
            reveal_strlit("v");
        }
        let prefix = "v";
        assert(prefix@ =~= seq!['v']);
        let label = String::from_str(prefix).concat(version_string(self.version()).as_str());
        let progress = Progress::new(label, self.archive_info().progress_total());
        InstallStep::Pending(
            Install {
                progress,
                staging_root: String::from_str(image_root_dir),
                staged_dir: join(image_root_dir, archive_root_dir_name),
                final_dir: String::from_str(image_dir),
                pending: InstallAction::Unpack,
                version: self.into_version(),
            },
        )
    }
}

} // verus!
