//! The record of which versions are installed.

use crate::version::{precedence, same_version, Precedence};
use vstd::prelude::*;

verus! {

/// The installed versions of Yarn: a set, in which a version counts as
/// present when one that equals it was inserted.
pub struct YarnCollection {
    versions: Vec<semver::Version>,
}

impl View for YarnCollection {
    type V = Set<Precedence>;

    closed spec fn view(&self) -> Set<Precedence> {
        Set::new(
            |key: Precedence|
                exists|i: int|
                    0 <= i < self.versions@.len() && precedence(#[trigger] self.versions@[i])
                        == key,
        )
    }
}

impl YarnCollection {
    /// No version is held twice.
    #[verifier::type_invariant]
    spec fn distinct(self) -> bool {
        forall|i: int, j: int|
            0 <= i < j < self.versions@.len() ==> precedence(#[trigger] self.versions@[i])
                != precedence(#[trigger] self.versions@[j])
    }

    /// A collection with nothing installed.
    pub fn new() -> (collection: YarnCollection)
        ensures
            collection@ == Set::<Precedence>::empty(),
    {
        let collection = YarnCollection { versions: Vec::new() };
        assert(collection@ =~= Set::<Precedence>::empty());
        collection
    }

    /// Whether the version is installed.
    pub fn contains(&self, version: &semver::Version) -> (found: bool)
        ensures
            found == self@.contains(precedence(*version)),
    {
        let mut at: usize = 0;
        while at < self.versions.len()
            invariant
                at <= self.versions@.len(),
                forall|i: int|
                    0 <= i < at ==> precedence(#[trigger] self.versions@[i]) != precedence(
                        *version,
                    ),
            decreases self.versions@.len() - at,
        {
            if same_version(&self.versions[at], version) {
                return true;
            }
            at += 1;
        }
        false
    }

    /// Records the version as installed.
    pub fn insert(&mut self, version: semver::Version)
        ensures
            final(self)@ == old(self)@.insert(precedence(version)),
    {
        let ghost before = self@;
        if !self.contains(&version) {
            proof {
                use_type_invariant(&*self);
            }
            let ghost held = self.versions@;
            let mut versions: Vec<semver::Version> = Vec::new();
            std::mem::swap(&mut self.versions, &mut versions);
            versions.push(version);
            self.versions = versions;
            assert(self.versions@ == held.push(version));
            assert forall|key: Precedence|
                self@.contains(key) <==> before.insert(precedence(version)).contains(
                    key,
                ) by {
                if self@.contains(key) {
                    let i = choose|i: int|
                        0 <= i < self.versions@.len() && precedence(#[trigger] self.versions@[i])
                            == key;
                    if i < held.len() {
                        assert(precedence(held[i]) == key);
                    }
                }
                if before.contains(key) {
                    let i = choose|i: int|
                        0 <= i < held.len() && precedence(#[trigger] held[i]) == key;
                    assert(precedence(self.versions@[i]) == key);
                }
                if key == precedence(version) {
                    assert(precedence(self.versions@[held.len() as int]) == key);
                }
            }
            assert(self@ =~= before.insert(precedence(version)));
        } else {
            assert(self@ =~= before.insert(precedence(version)));
        }
    }
}

} // verus!
