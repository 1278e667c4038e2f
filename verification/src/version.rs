//! Semantic versions: their text and their identity.
//!
//! Versions are values of the `semver` crate. Their fields are public there, so
//! specifications read them directly.

use vstd::prelude::*;

verus! {

/// `semver::Identifier`, declared with its variants. Verus reads them from
/// the definition in `semver`, so nothing about the type is taken on trust.
#[verifier::external_type_specification]
pub struct ExIdentifier(semver::Identifier);

/// `semver::Version`, declared with its fields. Verus reads them from the
/// definition in `semver`, so nothing about the type is taken on trust.
#[verifier::external_type_specification]
pub struct ExVersion(semver::Version);

/// The character that stands for a decimal digit.
pub open spec fn digit_char(d: nat) -> char {
    if d == 0 {
        '0'
    } else if d == 1 {
        '1'
    } else if d == 2 {
        '2'
    } else if d == 3 {
        '3'
    } else if d == 4 {
        '4'
    } else if d == 5 {
        '5'
    } else if d == 6 {
        '6'
    } else if d == 7 {
        '7'
    } else if d == 8 {
        '8'
    } else {
        '9'
    }
}

/// A number in decimal notation, without sign or leading zeros.
pub open spec fn decimal(n: nat) -> Seq<char>
    decreases n,
{
    if n < 10 {
        seq![digit_char(n)]
    } else {
        decimal(n / 10).push(digit_char(n % 10))
    }
}

/// The text of one pre-release or build identifier.
pub open spec fn identifier_text(id: semver::Identifier) -> Seq<char> {
    match id {
        semver::Identifier::Numeric(n) => decimal(n as nat),
        semver::Identifier::AlphaNumeric(s) => s@,
    }
}

/// Identifiers in order, separated by dots.
pub open spec fn dotted(ids: Seq<semver::Identifier>) -> Seq<char>
    decreases ids.len(),
{
    if ids.len() == 0 {
        Seq::empty()
    } else if ids.len() == 1 {
        identifier_text(ids[0])
    } else {
        dotted(ids.drop_last()) + seq!['.'] + identifier_text(ids.last())
    }
}

/// The text of a version: `major.minor.patch`, then `-` and the pre-release
/// identifiers if there are any, then `+` and the build identifiers if there
/// are any.
pub open spec fn version_text(v: semver::Version) -> Seq<char> {
    decimal(v.major as nat) + seq!['.'] + decimal(v.minor as nat) + seq!['.'] + decimal(
        v.patch as nat,
    ) + (if v.pre@.len() > 0 {
        seq!['-'] + dotted(v.pre@)
    } else {
        Seq::empty()
    }) + (if v.build@.len() > 0 {
        seq!['+'] + dotted(v.build@)
    } else {
        Seq::empty()
    })
}

/// What decides whether an identifier equals another: its kind and its content.
pub enum IdentifierKey {
    Numeric(u64),
    AlphaNumeric(Seq<char>),
}

pub open spec fn identifier_key(id: semver::Identifier) -> IdentifierKey {
    match id {
        semver::Identifier::Numeric(n) => IdentifierKey::Numeric(n),
        semver::Identifier::AlphaNumeric(s) => IdentifierKey::AlphaNumeric(s@),
    }
}

/// What decides whether a version equals another. Build metadata has no part
/// in it.
pub struct Precedence {
    pub major: u64,
    pub minor: u64,
    pub patch: u64,
    pub pre: Seq<IdentifierKey>,
}

pub open spec fn precedence(v: semver::Version) -> Precedence {
    Precedence {
        major: v.major,
        minor: v.minor,
        patch: v.patch,
        pre: v.pre@.map_values(|id: semver::Identifier| identifier_key(id)),
    }
}

/// Calls `to_string` on the version, which goes through `semver`'s `Display`
/// for `Version`. Trusted: the result is `version_text` of the version, the
/// three numbers in decimal separated by dots, followed by the dotted
/// pre-release identifiers after a hyphen and the dotted build identifiers
/// after a plus sign, each part only where there are identifiers.
#[verifier::external_body]
pub(crate) fn version_string(version: &semver::Version) -> (text: String)
    ensures
        text@ == version_text(*version),
{
    version.to_string()
}

/// Calls `semver`'s `==` on two versions. Trusted: the answer is whether the
/// numbers and the pre-release identifiers agree; build metadata is left out
/// of the comparison.
#[verifier::external_body]
pub(crate) fn same_version(a: &semver::Version, b: &semver::Version) -> (same: bool)
    ensures
        same == (precedence(*a) == precedence(*b)),
{
    a == b
}

} // verus!
