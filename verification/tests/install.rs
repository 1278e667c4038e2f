use semver::Version;
use yarn_distro::archive::{ArchiveInfo, Progress};
use yarn_distro::distro::{Outcome, Provisioned, YarnDistro};
use yarn_distro::archive::CacheProbe;
use yarn_distro::error::{DistroError, IoFailure};
use yarn_distro::install::{Install, InstallAction, InstallOutcome, InstallStep};
use yarn_distro::inventory::YarnCollection;

fn version_1_9_4() -> Version {
    Version::parse("1.9.4").unwrap()
}

fn distro(uncompressed_size: Option<u64>) -> YarnDistro {
    let archive = ArchiveInfo { compressed_size: 700, uncompressed_size };
    YarnDistro::local(version_1_9_4(), Some(archive)).unwrap()
}

fn start(distro: YarnDistro, collection: &YarnCollection) -> InstallStep {
    distro.fetch(collection, "/tool/versions/yarn", "yarn-v1.9.4", "/tool/versions/yarn/1.9.4")
}

fn pending(step: InstallStep) -> Install {
    match step {
        InstallStep::Pending(install) => install,
        other => panic!("expected another step, got {:?}", other),
    }
}

#[test]
fn installed_version_is_not_installed_again() {
    let mut collection = YarnCollection::new();
    collection.insert(version_1_9_4());
    match start(distro(Some(4_096)), &collection) {
        InstallStep::Done(InstallOutcome::AlreadyInstalled(version)) => {
            assert_eq!(version, version_1_9_4())
        }
        other => panic!("expected nothing to do, got {:?}", other),
    }
}

#[test]
fn new_version_is_unpacked_into_the_staging_root() {
    let install = pending(start(distro(Some(4_096)), &YarnCollection::new()));
    assert_eq!(install.pending, InstallAction::Unpack);
    assert_eq!(install.version, version_1_9_4());
    assert_eq!(install.staging_root, "/tool/versions/yarn");
    assert_eq!(install.staged_dir, "/tool/versions/yarn/yarn-v1.9.4");
    assert_eq!(install.final_dir, "/tool/versions/yarn/1.9.4");
}

#[test]
fn progress_is_labelled_with_the_version() {
    let install = pending(start(distro(Some(4_096)), &YarnCollection::new()));
    assert_eq!(install.progress.label, "v1.9.4");
    assert_eq!(install.progress.position, 0);
}

#[test]
fn progress_expects_the_uncompressed_size_when_known() {
    let install = pending(start(distro(Some(4_096)), &YarnCollection::new()));
    assert_eq!(install.progress.total, 4_096);
    let archive = ArchiveInfo { compressed_size: 700, uncompressed_size: Some(4_096) };
    assert_eq!(archive.progress_total(), 4_096);
}

#[test]
fn progress_expects_the_compressed_size_otherwise() {
    let install = pending(start(distro(None), &YarnCollection::new()));
    assert_eq!(install.progress.total, 700);
    let archive = ArchiveInfo { compressed_size: 700, uncompressed_size: None };
    assert_eq!(archive.progress_total(), 700);
}

#[test]
fn progress_adds_up_what_was_read() {
    let mut install = pending(start(distro(Some(4_096)), &YarnCollection::new()));
    for read in [1_024u64, 1_024, 2_000, 0, 48] {
        install.progress.inc(read);
    }
    assert_eq!(install.progress.position, 4_096);
    assert_eq!(install.progress.position, install.progress.total);
    assert_eq!(install.progress.label, "v1.9.4");
}

#[test]
fn progress_stops_at_the_largest_count() {
    let mut progress = Progress::new("v0.0.1".to_string(), 10);
    progress.inc(u64::MAX - 1);
    assert_eq!(progress.position, u64::MAX - 1);
    progress.inc(5);
    assert_eq!(progress.position, u64::MAX);
    assert_eq!(progress.total, 10);
}

#[test]
fn successful_extraction_is_promoted() {
    let install = pending(start(distro(Some(4_096)), &YarnCollection::new()));
    let install = pending(install.advance(true));
    assert_eq!(install.pending, InstallAction::Promote);
    assert_eq!(install.staged_dir, "/tool/versions/yarn/yarn-v1.9.4");
    assert_eq!(install.final_dir, "/tool/versions/yarn/1.9.4");
    match install.advance(true) {
        InstallStep::Done(InstallOutcome::Installed(version)) => {
            assert_eq!(version, version_1_9_4())
        }
        other => panic!("expected an installed version, got {:?}", other),
    }
}

#[test]
fn interrupted_extraction_is_never_promoted() {
    let install = pending(start(distro(Some(4_096)), &YarnCollection::new()));
    match install.advance(false) {
        InstallStep::Failed(DistroError::Io(failure)) => assert_eq!(failure, IoFailure::Extract),
        other => panic!("expected a failed extraction, got {:?}", other),
    }
}

#[test]
fn failed_rename_fails_the_installation() {
    let install = pending(start(distro(Some(4_096)), &YarnCollection::new()));
    let install = pending(install.advance(true));
    match install.advance(false) {
        InstallStep::Failed(DistroError::Io(failure)) => assert_eq!(failure, IoFailure::Rename),
        other => panic!("expected a failed rename, got {:?}", other),
    }
}

#[test]
fn first_install_of_1_9_4_then_nothing_to_do() {
    let mut collection = YarnCollection::new();

    let provision = YarnDistro::public(
        version_1_9_4(),
        "https://example.org/dist",
        "yarn-v1.9.4.tar.gz",
        "/tool/inventory/yarn",
    );
    assert!(provision.url.ends_with("/yarn-v1.9.4.tar.gz"));
    assert_eq!(provision.cache_file, "/tool/inventory/yarn/yarn-v1.9.4.tar.gz");
    let mut fetches = 0;
    let mut state = provision.advance(Outcome::Probed(CacheProbe::NotAFile));
    let first = loop {
        state = match state {
            Provisioned::Pending(provision) => {
                let outcome = match provision.pending {
                    yarn_distro::distro::ProvisionAction::EnsureContainingDir => Outcome::Completed,
                    yarn_distro::distro::ProvisionAction::Fetch => {
                        fetches += 1;
                        Outcome::Loaded(ArchiveInfo {
                            compressed_size: 700,
                            uncompressed_size: Some(4_096),
                        })
                    }
                    other => panic!("the cache is empty, yet {:?} is asked for", other),
                };
                provision.advance(outcome)
            }
            Provisioned::Ready(distro) => break distro,
            Provisioned::Failed(error) => panic!("provisioning failed: {:?}", error),
        };
    };
    assert_eq!(fetches, 1);
    assert_eq!(first.version(), &version_1_9_4());

    let install = pending(start(first, &collection));
    assert_eq!(install.pending, InstallAction::Unpack);
    let install = pending(install.advance(true));
    assert_eq!(install.pending, InstallAction::Promote);
    assert_eq!(install.final_dir, "/tool/versions/yarn/1.9.4");
    match install.advance(true) {
        InstallStep::Done(InstallOutcome::Installed(version)) => collection.insert(version),
        other => panic!("expected an installed version, got {:?}", other),
    }

    match start(distro(Some(4_096)), &collection) {
        InstallStep::Done(InstallOutcome::AlreadyInstalled(version)) => {
            assert_eq!(version, version_1_9_4())
        }
        other => panic!("expected nothing to do, got {:?}", other),
    }
}
