//! What holds of provisioning and installing as a whole.

use crate::archive::{clamped, total_read, ArchiveInfo, CacheProbe, Progress};
use crate::distro::{DistroView, Outcome, Provision, ProvisionAction, ProvisionedView, YarnDistro};
use crate::error::{DistroError, DistroErrorView, IoFailure};
use crate::install::{Install, InstallAction, InstallOutcome, InstallStep};
use crate::paths::joined;
use crate::version::{precedence, Precedence};
use vstd::prelude::*;

verus! {

/// Installing is idempotent. A version that the inventory holds is not
/// installed again: the installation is over at once with `AlreadyInstalled`
/// and asks for no step, so nothing is written. This holds in particular once
/// the caller has recorded a version that was installed.
pub proof fn lemma_install_is_idempotent(
    distro: YarnDistro,
    installed: Set<Precedence>,
    image_root_dir: Seq<char>,
    archive_root_dir_name: Seq<char>,
    image_dir: Seq<char>,
    step: InstallStep,
    again: InstallStep,
)
    requires
        distro.fetch_starts(installed, image_root_dir, archive_root_dir_name, image_dir, step),
        distro.fetch_starts(
            installed.insert(precedence(distro@.version)),
            image_root_dir,
            archive_root_dir_name,
            image_dir,
            again,
        ),
    ensures
        installed.contains(precedence(distro@.version)) ==> step == InstallStep::Done(
            InstallOutcome::AlreadyInstalled(distro@.version),
        ) && step.due() is None,
        again == InstallStep::Done(InstallOutcome::AlreadyInstalled(distro@.version)),
        again.due() is None,
{
}

/// An installation that is over, one way or the other, asks for nothing more.
pub proof fn lemma_install_ends(step: InstallStep, oks: Seq<bool>)
    requires
        step.due() is None,
    ensures
        step.after_all(oks) == step,
    decreases oks.len(),
{
    if oks.len() > 0 {
        lemma_install_ends(step, oks.drop_first());
    }
}

/// Promotion is atomic with respect to extraction. From the start of an
/// installation, whatever the outcomes reported:
/// promotion is due after a successful extraction and at no other time; a
/// failed extraction ends the installation without any promotion; the version
/// is installed exactly when extraction and promotion have both succeeded; and
/// the directories named at the start are those that are promoted.
pub proof fn lemma_promotion_follows_extraction(install: Install, oks: Seq<bool>)
    requires
        install.pending == InstallAction::Unpack,
    ensures
        ({
            let end = InstallStep::Pending(install).after_all(oks);
            &&& end.due() == Some(InstallAction::Unpack) <==> oks.len() == 0
            &&& end.due() == Some(InstallAction::Promote) <==> oks.len() == 1 && oks[0]
            &&& end matches InstallStep::Pending(now) ==> now.version == install.version
                && now.progress == install.progress && now.staging_root == install.staging_root
                && now.staged_dir == install.staged_dir && now.final_dir == install.final_dir
            &&& end is Done <==> oks.len() >= 2 && oks[0] && oks[1]
            &&& end is Done ==> end == InstallStep::Done(InstallOutcome::Installed(install.version))
            &&& oks.len() >= 1 && !oks[0] ==> end == InstallStep::Failed(
                DistroError::Io(IoFailure::Extract),
            )
            &&& oks.len() >= 2 && oks[0] && !oks[1] ==> end == InstallStep::Failed(
                DistroError::Io(IoFailure::Rename),
            )
        }),
{
    let start = InstallStep::Pending(install);
    if oks.len() >= 1 {
        let first = start.after(oks[0]);
        let rest = oks.drop_first();
        assert(start.after_all(oks) == first.after_all(rest));
        if !oks[0] {
            lemma_install_ends(first, rest);
        } else if rest.len() >= 1 {
            let second = first.after(rest[0]);
            assert(rest[0] == oks[1]);
            assert(first.after_all(rest) == second.after_all(rest.drop_first()));
            lemma_install_ends(second, rest.drop_first());
        } else {
            assert(first.after_all(rest) == first);
        }
    }
}

/// A joined location begins with its root and ends in its name.
pub proof fn lemma_joined_keeps_both(root: Seq<char>, name: Seq<char>)
    ensures
        root.is_prefix_of(joined(root, name)),
        name.is_suffix_of(joined(root, name)),
        joined(root, name).len() == root.len() + 1 + name.len(),
{
    let whole = joined(root, name);
    assert(whole.subrange(0, root.len() as int) =~= root);
    assert(whole.subrange(whole.len() - name.len(), whole.len() as int) =~= name);
}

/// Provisioning from the public distributor fetches from a URL that begins
/// with the server's root and ends in the distribution's file name, and caches
/// under that very file name in the inventory directory.
pub proof fn lemma_public_locations_end_in_file_name(
    provision: Provision,
    version: semver::Version,
    server_root: Seq<char>,
    distro_file_name: Seq<char>,
    inventory_dir: Seq<char>,
)
    requires
        provision.begins(
            version,
            joined(server_root, distro_file_name),
            joined(inventory_dir, distro_file_name),
        ),
    ensures
        server_root.is_prefix_of(provision.url@),
        distro_file_name.is_suffix_of(provision.url@),
        inventory_dir.is_prefix_of(provision.cache_file@),
        distro_file_name.is_suffix_of(provision.cache_file@),
{
    lemma_joined_keeps_both(server_root, distro_file_name);
    lemma_joined_keeps_both(inventory_dir, distro_file_name);
}

/// A provisioning that is over, one way or the other, asks for nothing more.
pub proof fn lemma_provision_ends(state: ProvisionedView, outcomes: Seq<Outcome>)
    requires
        state.due() is None,
    ensures
        state.after_all(outcomes) == state,
    decreases outcomes.len(),
{
    if outcomes.len() > 0 {
        lemma_provision_ends(state, outcomes.drop_first());
    }
}

/// Whether provisioning has not left the cache: the cache file is being
/// looked at, opened or loaded, or the provisioning is over.
pub open spec fn stays_local(state: ProvisionedView) -> bool {
    state.due() != Some(ProvisionAction::EnsureContainingDir) && state.due() != Some(
        ProvisionAction::Fetch,
    ) && !(state matches ProvisionedView::Failed(DistroErrorView::Download { .. }))
}

/// A valid cached file keeps provisioning off the network: once the cache file
/// was found well formed, whatever else is reported, no directory is made, no
/// fetch is asked for and no download error comes out.
pub proof fn lemma_valid_cache_needs_no_network(provision: Provision, outcomes: Seq<Outcome>)
    requires
        provision.pending == ProvisionAction::OpenCache || provision.pending
            == ProvisionAction::LoadCache,
    ensures
        stays_local(ProvisionedView::Pending(provision).after_all(outcomes)),
    decreases outcomes.len(),
{
    let start = ProvisionedView::Pending(provision);
    if outcomes.len() > 0 {
        let first = start.after(outcomes.first());
        let rest = outcomes.drop_first();
        match first {
            ProvisionedView::Pending(then) => {
                lemma_valid_cache_needs_no_network(then, rest);
            },
            _ => {
                lemma_provision_ends(first, rest);
            },
        }
    }
}

/// The same, from the start of a provisioning: if the first thing reported is
/// that the cache file is well formed, the network is never used.
pub proof fn lemma_cache_hit_short_circuits(provision: Provision, outcomes: Seq<Outcome>)
    requires
        provision.pending == ProvisionAction::ProbeCache,
        outcomes.len() > 0,
        outcomes[0] == Outcome::Probed(CacheProbe::WellFormed),
    ensures
        stays_local(ProvisionedView::Pending(provision).after_all(outcomes)),
{
    lemma_valid_cache_needs_no_network(
        provision.due(ProvisionAction::OpenCache),
        outcomes.drop_first(),
    );
}

/// A cache file that is missing, unreadable or malformed is no failure: it
/// leads to the download.
pub proof fn lemma_invalid_cache_is_fetched_again(provision: Provision, probe: CacheProbe)
    requires
        provision.pending == ProvisionAction::ProbeCache,
        probe != CacheProbe::WellFormed,
    ensures
        provision.next(Outcome::Probed(probe)) == ProvisionedView::Pending(
            provision.due(ProvisionAction::EnsureContainingDir),
        ),
        ProvisionedView::Pending(provision).after_all(
            seq![Outcome::Probed(probe), Outcome::Completed],
        ).due() == Some(ProvisionAction::Fetch),
{
    let outcomes = seq![Outcome::Probed(probe), Outcome::Completed];
    let start = ProvisionedView::Pending(provision);
    let first = start.after(outcomes.first());
    let rest = outcomes.drop_first();
    assert(rest.first() == Outcome::Completed);
    let second = first.after(rest.first());
    assert(rest.drop_first().len() == 0);
    assert(first.after_all(rest) == second.after_all(rest.drop_first()));
}

/// A distribution stands for a validated archive. Provisioning yields one
/// only when the cache file or the download was loaded as a well-formed
/// archive, and then it holds the sizes of that archive and the version asked
/// for.
pub proof fn lemma_distribution_is_validated(provision: Provision, outcome: Outcome)
    ensures
        provision.next(outcome) is Ready <==> (provision.pending == ProvisionAction::LoadCache
            || provision.pending == ProvisionAction::Fetch) && outcome is Loaded,
        provision.next(outcome) matches ProvisionedView::Ready(distro) ==> distro.version
            == provision.version && outcome == Outcome::Loaded(distro.archive),
{
}

/// A download round-trips through the cache. The archive that a successful
/// fetch wrote, when it is provisioned as a local file, gives the distribution
/// that the fetch gave, with the same version; and so does the next remote
/// provisioning of that version with the same cache file, from whatever URL,
/// which finds the file well formed and loads it.
pub proof fn lemma_download_round_trips(
    fetching: Provision,
    archive: ArchiveInfo,
    again: Provision,
    url: Seq<char>,
)
    requires
        fetching.pending == ProvisionAction::Fetch,
        again.begins(fetching.version, url, fetching.cache_file@),
    ensures
        ({
            let fetched = fetching.next(Outcome::Loaded(archive));
            let cached = seq![
                Outcome::Probed(CacheProbe::WellFormed),
                Outcome::Completed,
                Outcome::Loaded(archive),
            ];
            &&& fetched == ProvisionedView::Ready(DistroView { archive, version: fetching.version })
            &&& YarnDistro::spec_local(fetching.version, Some(archive)) == Ok::<
                DistroView,
                DistroErrorView,
            >(DistroView { archive, version: fetching.version })
            &&& ProvisionedView::Pending(again).after_all(cached) == fetched
        }),
{
    let cached = seq![
        Outcome::Probed(CacheProbe::WellFormed),
        Outcome::Completed,
        Outcome::Loaded(archive),
    ];
    let s0 = ProvisionedView::Pending(again);
    let s1 = s0.after(cached[0]);
    let r1 = cached.drop_first();
    let s2 = s1.after(r1[0]);
    let r2 = r1.drop_first();
    let s3 = s2.after(r2[0]);
    let r3 = r2.drop_first();
    assert(r1[0] == Outcome::Completed);
    assert(r2[0] == Outcome::Loaded(archive));
    assert(r3.len() == 0);
    assert(s2.after_all(r2) == s3.after_all(r3));
    assert(s1.after_all(r1) == s2.after_all(r2));
    assert(s0.after_all(cached) == s1.after_all(r1));
}

/// Progress accounts for every byte reported: after a run of reports the
/// position is the position before plus the sum of what was reported, held at
/// the largest number that fits, and label and total are as before. So a
/// display that starts at nothing and is told of exactly as many bytes as it
/// expects ends at its total.
pub proof fn lemma_progress_accounts_for_every_byte(progress: Progress, increments: Seq<u64>)
    ensures
        progress.after_all(increments).position == clamped(
            progress.position as nat + total_read(increments),
        ),
        progress.after_all(increments).label == progress.label,
        progress.after_all(increments).total == progress.total,
        progress.position == 0 && total_read(increments) == progress.total
            ==> progress.after_all(increments).position == progress.total,
    decreases increments.len(),
{
    if increments.len() > 0 {
        lemma_progress_accounts_for_every_byte(progress, increments.drop_last());
    }
}

} // verus!
