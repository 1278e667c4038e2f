//! Provisioning a distribution: from the public server, from any remote
//! location, or from a local file.
//!
//! Provisioning from a remote location takes several steps in the outside
//! world. A `Provision` says which step is due; the caller performs it, reports
//! the `Outcome` to `advance`, and goes on until a distribution or a failure
//! comes back.

use crate::archive::{distro_is_valid, spec_distro_is_valid, ArchiveInfo, CacheProbe};
use crate::error::{DistroError, DistroErrorView, IoFailure};
use crate::paths::{join, joined};
use crate::version::{version_string, version_text};
use vstd::prelude::*;
use vstd::string::StringExecFns;

verus! {

/// A provisioned Yarn distribution: an archive that was found to be well
/// formed, either in the cache or straight after its download, and the version
/// that it holds. It is not installed yet.
#[derive(Debug)]
pub struct YarnDistro {
    archive: ArchiveInfo,
    version: semver::Version,
}

/// What a distribution consists of.
pub struct DistroView {
    pub archive: ArchiveInfo,
    pub version: semver::Version,
}

impl View for YarnDistro {
    type V = DistroView;

    closed spec fn view(&self) -> DistroView {
        DistroView { archive: self.archive, version: self.version }
    }
}

/// The step that the caller performs next.
#[derive(Clone, Copy, Debug, PartialEq, Eq, Structural)]
pub enum ProvisionAction {
    /// Look at the cache file: is it a regular file, does it open, does it
    /// parse as an archive? Answered by `Outcome::Probed`.
    ProbeCache,
    /// Open the cache file. Answered by `Outcome::Completed` or
    /// `Outcome::Failed`.
    OpenCache,
    /// Read the opened cache file as an archive. Answered by `Outcome::Loaded`
    /// or `Outcome::Failed`.
    LoadCache,
    /// Make sure that the directory of the cache file exists. Answered by
    /// `Outcome::Completed` or `Outcome::Failed`.
    EnsureContainingDir,
    /// Fetch the URL into the cache file, in one blocking attempt. Answered by
    /// `Outcome::Loaded` or `Outcome::Failed`.
    Fetch,
}

/// How a step went.
#[derive(Clone, Copy, Debug, PartialEq, Eq, Structural)]
pub enum Outcome {
    /// What the look at the cache file found.
    Probed(CacheProbe),
    /// The step was done and has nothing to hand back.
    Completed,
    /// The step produced a well-formed archive of these sizes.
    Loaded(ArchiveInfo),
    /// The step failed.
    Failed,
}

/// A provisioning under way.
#[derive(Debug)]
pub struct Provision {
    /// The version asked for.
    pub version: semver::Version,
    /// Where the archive is fetched from if the cache cannot serve it.
    pub url: String,
    /// Where the archive is cached.
    pub cache_file: String,
    /// The step that is due.
    pub pending: ProvisionAction,
}

/// Where a provisioning stands after a step.
#[derive(Debug)]
pub enum Provisioned {
    /// Another step is due.
    Pending(Provision),
    /// The distribution is provisioned.
    Ready(YarnDistro),
    /// Provisioning failed, for good.
    Failed(DistroError),
}

/// `Provisioned` over the views of what it holds.
pub enum ProvisionedView {
    Pending(Provision),
    Ready(DistroView),
    Failed(DistroErrorView),
}

impl ProvisionedView {
    /// The step that the caller is asked to perform, if any.
    pub open spec fn due(self) -> Option<ProvisionAction> {
        match self {
            ProvisionedView::Pending(provision) => Some(provision.pending),
            _ => None,
        }
    }

    /// Where the provisioning stands once `outcome` is reported. What is over
    /// stays as it is.
    pub open spec fn after(self, outcome: Outcome) -> ProvisionedView {
        match self {
            ProvisionedView::Pending(provision) => provision.next(outcome),
            _ => self,
        }
    }

    /// Where the provisioning stands once the outcomes are reported in order.
    pub open spec fn after_all(self, outcomes: Seq<Outcome>) -> ProvisionedView
        decreases outcomes.len(),
    {
        if outcomes.len() == 0 {
            self
        } else {
            self.after(outcomes.first()).after_all(outcomes.drop_first())
        }
    }
}

impl View for Provisioned {
    type V = ProvisionedView;

    open spec fn view(&self) -> ProvisionedView {
        match *self {
            Provisioned::Pending(provision) => ProvisionedView::Pending(provision),
            Provisioned::Ready(distro) => ProvisionedView::Ready(distro@),
            Provisioned::Failed(error) => ProvisionedView::Failed(error@),
        }
    }
}

/// The result of a provisioning over the views of what it holds.
pub open spec fn outcome_view(outcome: Result<YarnDistro, DistroError>) -> Result<
    DistroView,
    DistroErrorView,
> {
    match outcome {
        Ok(distro) => Ok(distro@),
        Err(error) => Err(error@),
    }
}

impl Provision {
    /// Whether this is the start of provisioning `version` from `url` with the
    /// cache at `cache_file`: everything is in place and the cache is looked at
    /// first.
    pub open spec fn begins(
        self,
        version: semver::Version,
        url: Seq<char>,
        cache_file: Seq<char>,
    ) -> bool {
        &&& self.version == version
        &&& self.url@ == url
        &&& self.cache_file@ == cache_file
        &&& self.pending == ProvisionAction::ProbeCache
    }

    /// The same provisioning with another step due.
    pub open spec fn due(self, pending: ProvisionAction) -> Provision {
        Provision { pending, ..self }
    }

    /// Where the provisioning stands once `outcome` is reported for the step
    /// that was due.
    ///
    /// A valid cache file is opened and loaded, and nothing is fetched. Any
    /// other finding leads to the download: the directory first, then the
    /// fetch. A failed fetch is a download error that carries the version's
    /// text; every other failure is the local failure of its step. An outcome
    /// that does not answer the step leaves the provisioning as it is.
    pub open spec fn next(self, outcome: Outcome) -> ProvisionedView {
        match (self.pending, outcome) {
            (ProvisionAction::ProbeCache, Outcome::Probed(probe)) => {
                if spec_distro_is_valid(probe) {
                    ProvisionedView::Pending(self.due(ProvisionAction::OpenCache))
                } else {
                    ProvisionedView::Pending(self.due(ProvisionAction::EnsureContainingDir))
                }
            },
            (ProvisionAction::OpenCache, Outcome::Completed) => ProvisionedView::Pending(
                self.due(ProvisionAction::LoadCache),
            ),
            (ProvisionAction::OpenCache, Outcome::Failed) => ProvisionedView::Failed(
                DistroErrorView::Io(IoFailure::OpenFile),
            ),
            (ProvisionAction::LoadCache, Outcome::Loaded(archive)) => ProvisionedView::Ready(
                DistroView { archive, version: self.version },
            ),
            (ProvisionAction::LoadCache, Outcome::Failed) => ProvisionedView::Failed(
                DistroErrorView::Io(IoFailure::CorruptArchive),
            ),
            (ProvisionAction::EnsureContainingDir, Outcome::Completed) => ProvisionedView::Pending(
                self.due(ProvisionAction::Fetch),
            ),
            (ProvisionAction::EnsureContainingDir, Outcome::Failed) => ProvisionedView::Failed(
                DistroErrorView::Io(IoFailure::CreateDir),
            ),
            (ProvisionAction::Fetch, Outcome::Loaded(archive)) => ProvisionedView::Ready(
                DistroView { archive, version: self.version },
            ),
            (ProvisionAction::Fetch, Outcome::Failed) => ProvisionedView::Failed(
                DistroErrorView::Download { version: version_text(self.version) },
            ),
            _ => ProvisionedView::Pending(self),
        }
    }

    /// Takes the outcome of the step that was due and says where the
    /// provisioning stands now.
    pub fn advance(self, outcome: Outcome) -> (now: Provisioned)
        ensures
            now@ == self.next(outcome),
    {
        match (self.pending, outcome) {
            (ProvisionAction::ProbeCache, Outcome::Probed(probe)) => {
                if distro_is_valid(probe) {
                    Provisioned::Pending(Provision { pending: ProvisionAction::OpenCache, ..self })
                } else {
                    Provisioned::Pending(
                        Provision { pending: ProvisionAction::EnsureContainingDir, ..self },
                    )
                }
            },
            (ProvisionAction::OpenCache, Outcome::Completed) => Provisioned::Pending(
                Provision { pending: ProvisionAction::LoadCache, ..self },
            ),
            (ProvisionAction::OpenCache, Outcome::Failed) => Provisioned::Failed(
                DistroError::Io(IoFailure::OpenFile),
            ),
            (ProvisionAction::LoadCache, Outcome::Loaded(archive)) => Provisioned::Ready(
                YarnDistro { archive, version: self.version },
            ),
            (ProvisionAction::LoadCache, Outcome::Failed) => Provisioned::Failed(
                DistroError::Io(IoFailure::CorruptArchive),
            ),
            (ProvisionAction::EnsureContainingDir, Outcome::Completed) => Provisioned::Pending(
                Provision { pending: ProvisionAction::Fetch, ..self },
            ),
            (ProvisionAction::EnsureContainingDir, Outcome::Failed) => Provisioned::Failed(
                DistroError::Io(IoFailure::CreateDir),
            ),
            (ProvisionAction::Fetch, Outcome::Loaded(archive)) => Provisioned::Ready(
                YarnDistro { archive, version: self.version },
            ),
            (ProvisionAction::Fetch, Outcome::Failed) => Provisioned::Failed(
                DistroError::Download { version: version_string(&self.version) },
            ),
            _ => Provisioned::Pending(self),
        }
    }
}

/// The root under which the public distributor keeps its archives. A caller
/// that provisions against another server, such as a test double, passes that
/// server's root to `YarnDistro::public` instead.
pub fn public_yarn_server_root() -> (root: String)
    ensures
        root@ == "https://github.com/notion-cli/yarn-releases/raw/master/dist"@,
{
    String::from_str("https://github.com/notion-cli/yarn-releases/raw/master/dist")
}

impl YarnDistro {
    /// Starts provisioning from the public distributor: the archive is
    /// expected at `distro_file_name` under `server_root`, and is cached under
    /// that name in `inventory_dir`.
    pub fn public(
        version: semver::Version,
        server_root: &str,
        distro_file_name: &str,
        inventory_dir: &str,
    ) -> (provision: Provision)
        ensures
            provision.begins(
                version,
                joined(server_root@, distro_file_name@),
                joined(inventory_dir@, distro_file_name@),
            ),
    {
        let url = join(server_root, distro_file_name);
        YarnDistro::remote(version, url.as_str(), distro_file_name, inventory_dir)
    }

    /// Starts provisioning from a remote location: the archive is fetched from
    /// `url` unless the cache, at `distro_file_name` in `inventory_dir`, already
    /// holds a well-formed one.
    pub fn remote(
        version: semver::Version,
        url: &str,
        distro_file_name: &str,
        inventory_dir: &str,
    ) -> (provision: Provision)
        ensures
            provision.begins(version, url@, joined(inventory_dir@, distro_file_name@)),
    {
        Provision {
            version,
            url: String::from_str(url),
            cache_file: join(inventory_dir, distro_file_name),
            pending: ProvisionAction::ProbeCache,
        }
    }

    /// What provisioning from a local file comes to, given what reading the
    /// file as an archive produced.
    pub open spec fn spec_local(
        version: semver::Version,
        loaded: Option<ArchiveInfo>,
    ) -> Result<DistroView, DistroErrorView> {
        match loaded {
            Some(archive) => Ok(DistroView { archive, version }),
            None => Err(DistroErrorView::Io(IoFailure::CorruptArchive)),
        }
    }

    /// Provisions from a local file that the caller has read as an archive:
    /// `loaded` holds the archive's sizes, or nothing if the file did not
    /// parse. Such a file is a local failure, never a download error.
    pub fn local(version: semver::Version, loaded: Option<ArchiveInfo>) -> (distro: Result<
        YarnDistro,
        DistroError,
    >)
        ensures
            outcome_view(distro) == YarnDistro::spec_local(version, loaded),
    {
        match loaded {
            Some(archive) => Ok(YarnDistro { archive, version }),
            None => Err(DistroError::Io(IoFailure::CorruptArchive)),
        }
    }

    /// The version of this distribution.
    pub fn version(&self) -> (version: &semver::Version)
        ensures
            *version == self@.version,
    {
        &self.version
    }

    /// The sizes of this distribution's archive.
    pub(crate) fn archive_info(&self) -> (archive: ArchiveInfo)
        ensures
            archive == self@.archive,
    {
        self.archive
    }

    /// Gives up the distribution for its version.
    pub(crate) fn into_version(self) -> (version: semver::Version)
        ensures
            version == self@.version,
    {
        self.version
    }
}

} // verus!
