use vstd::prelude::*;
use vstd::string::*;
use crate::commit_analyzer::CommitType;

verus! {

/// A released version: the three numeric components of `MAJOR.MINOR.PATCH`.
#[derive(Clone, Copy, Debug, PartialEq, Eq, Structural, Hash)]
pub struct Version {
    pub major: u64,
    pub minor: u64,
    pub patch: u64,
}

/// The version that follows `v` after a change of kind `bump`, if any does.
///
/// While the major component is zero the package is in initial development:
/// a breaking change then advances the minor component and a feature only
/// the patch component.
pub open spec fn next_version(v: Version, bump: CommitType) -> Option<(int, int, int)> {
    match bump {
        CommitType::Unknown => None,
        CommitType::Patch => Some((v.major as int, v.minor as int, v.patch + 1)),
        CommitType::Minor => if v.major == 0 {
            Some((0, v.minor as int, v.patch + 1))
        } else {
            Some((v.major as int, v.minor + 1, 0))
        },
        CommitType::Major => if v.major == 0 {
            Some((0, v.minor + 1, 0))
        } else {
            Some((v.major + 1, 0, 0))
        },
    }
}

/// The components of a version as mathematical integers.
pub open spec fn triple(v: Version) -> (int, int, int) {
    (v.major as int, v.minor as int, v.patch as int)
}

/// Whether the version after `v` can be held in 64-bit components.
pub open spec fn bump_fits(v: Version, bump: CommitType) -> bool {
    match next_version(v, bump) {
        Some((major, minor, patch)) => major <= u64::MAX && minor <= u64::MAX && patch
            <= u64::MAX,
        None => true,
    }
}

/// Computes the next version from the current one and the dominant kind of
/// change. The current version is left untouched.
pub fn version_bump(version: &Version, bump: CommitType) -> (next: Option<Version>)
    requires
        bump_fits(*version, bump),
    ensures
        next is Some <==> bump != CommitType::Unknown,
        match next {
            Some(n) => next_version(*version, bump) == Some(triple(n)),
            None => next_version(*version, bump) is None,
        },
{
    let zero = version.major == 0;
    match bump {
        CommitType::Unknown => None,
        CommitType::Patch => Some(increment_patch(version)),
        CommitType::Minor => if zero {
            Some(increment_patch(version))
        } else {
            Some(increment_minor(version))
        },
        CommitType::Major => if zero {
            Some(increment_minor(version))
        } else {
            Some(increment_major(version))
        },
    }
}

/// Tests whether the version after `version` can be held in 64-bit
/// components.
pub fn can_bump(version: &Version, bump: CommitType) -> (fits: bool)
    ensures
        fits == bump_fits(*version, bump),
{
    let zero = version.major == 0;
    match bump {
        CommitType::Unknown => true,
        CommitType::Patch => version.patch < u64::MAX,
        CommitType::Minor => if zero {
            version.patch < u64::MAX
        } else {
            version.minor < u64::MAX
        },
        CommitType::Major => if zero {
            version.minor < u64::MAX
        } else {
            version.major < u64::MAX
        },
    }
}

/// The version with the patch component advanced by one.
pub fn increment_patch(v: &Version) -> (next: Version)
    requires
        v.patch < u64::MAX,
    ensures
        triple(next) == (v.major as int, v.minor as int, v.patch + 1),
{
    Version { major: v.major, minor: v.minor, patch: v.patch + 1 }
}

/// The version with the minor component advanced by one and the patch
/// component reset.
pub fn increment_minor(v: &Version) -> (next: Version)
    requires
        v.minor < u64::MAX,
    ensures
        triple(next) == (v.major as int, v.minor + 1, 0int),
{
    Version { major: v.major, minor: v.minor + 1, patch: 0 }
}

/// The version with the major component advanced by one and the other two
/// reset.
pub fn increment_major(v: &Version) -> (next: Version)
    requires
        v.major < u64::MAX,
    ensures
        triple(next) == (v.major + 1, 0int, 0int),
{
    Version { major: v.major + 1, minor: 0, patch: 0 }
}

/// No release follows from commits that carry no annotation, whatever the
/// current version is; every other kind of change yields a release.
pub proof fn release_iff_annotated(v: Version, bump: CommitType)
    ensures
        next_version(v, CommitType::Unknown) is None,
        next_version(v, bump) is None <==> bump == CommitType::Unknown,
{
}


impl Version {
    /// The canonical text of the version, `MAJOR.MINOR.PATCH`.
    pub fn to_string(&self) -> (text: String)
        ensures
            text@ == version_text(*self),
    {
        let mut text = decimal_string(self.major);
        text.append(".");
        text.append(decimal_string(self.minor).as_str());
        text.append(".");
        text.append(decimal_string(self.patch).as_str());
        text
    }
}

/// The text of one decimal digit.
pub open spec fn digit_text(d: int) -> Seq<char> {
    if d == 0 {
        "0"@
    } else if d == 1 {
        "1"@
    } else if d == 2 {
        "2"@
    } else if d == 3 {
        "3"@
    } else if d == 4 {
        "4"@
    } else if d == 5 {
        "5"@
    } else if d == 6 {
        "6"@
    } else if d == 7 {
        "7"@
    } else if d == 8 {
        "8"@
    } else {
        "9"@
    }
}

/// A number in decimal notation, without leading zeros.
pub open spec fn decimal(n: nat) -> Seq<char>
    decreases n,
{
    if n < 10 {
        digit_text(n as int)
    } else {
        decimal(n / 10) + digit_text((n % 10) as int)
    }
}

/// The canonical text of a version: its three components in decimal
/// notation with dots between them.
pub open spec fn version_text(v: Version) -> Seq<char> {
    decimal(v.major as nat) + "."@ + decimal(v.minor as nat) + "."@ + decimal(v.patch as nat)
}

/// The text of one decimal digit.
fn digit_str(d: u64) -> (text: &'static str)
    requires
        d < 10,
    ensures
        text@ == digit_text(d as int),
{
    if d == 0 {
        "0"
    } else if d == 1 {
        "1"
    } else if d == 2 {
        "2"
    } else if d == 3 {
        "3"
    } else if d == 4 {
        "4"
    } else if d == 5 {
        "5"
    } else if d == 6 {
        "6"
    } else if d == 7 {
        "7"
    } else if d == 8 {
        "8"
    } else {
        "9"
    }
}

/// Writes a number in decimal notation.
pub fn decimal_string(n: u64) -> (text: String)
    ensures
        text@ == decimal(n as nat),
{
    let mut text = digit_str(n % 10).to_owned();
    let mut rest: u64 = n / 10;
    let ghost mut done: nat = n as nat;
    while rest > 0
        invariant
            rest == done / 10,
            decimal(n as nat) == (if done < 10 {
                Seq::<char>::empty()
            } else {
                decimal(done / 10)
            }) + text@,
        decreases rest,
    {
        let digit = digit_str(rest % 10).to_owned();
        proof {
            let front = if rest < 10 {
                Seq::<char>::empty()
            } else {
                decimal((rest / 10) as nat)
            };
            assert(decimal(rest as nat) == front + digit@) by {
                assert(Seq::<char>::empty() + digit@ =~= digit@);
            }
            assert((front + digit@) + text@ =~= front + (digit@ + text@));
            done = rest as nat;
        }
        text = digit.concat(text.as_str());
        rest = rest / 10;
    }
    assert(Seq::<char>::empty() + text@ =~= text@);
    text
}

/// Whether `a` is an older version than `b`: the major components decide,
/// then the minor, then the patch components.
pub open spec fn precedes(a: Version, b: Version) -> bool {
    a.major < b.major || (a.major == b.major && (a.minor < b.minor || (a.minor == b.minor
        && a.patch < b.patch)))
}

/// Tests whether `a` is an older version than `b`.
pub fn is_older(a: &Version, b: &Version) -> (r: bool)
    ensures
        r == precedes(*a, *b),
{
    a.major < b.major || (a.major == b.major && (a.minor < b.minor || (a.minor == b.minor
        && a.patch < b.patch)))
}

/// Finds the newest of a list of versions: the position of one that none
/// is newer than, the first such where it occurs more than once. An empty
/// list has none.
pub fn newest(versions: &Vec<Version>) -> (best: Option<usize>)
    ensures
        match best {
            Some(i) => {
                &&& i < versions@.len()
                &&& forall|j: int|
                    0 <= j < versions@.len() ==> !precedes(
                        versions@[i as int],
                        #[trigger] versions@[j],
                    )
                &&& forall|j: int|
                    0 <= j < i ==> precedes(#[trigger] versions@[j], versions@[i as int])
            },
            None => versions@.len() == 0,
        },
{
    if versions.len() == 0 {
        return None;
    }
    let mut best: usize = 0;
    let mut k: usize = 1;
    while k < versions.len()
        invariant
            best < k <= versions.len(),
            forall|j: int|
                0 <= j < k ==> !precedes(versions@[best as int], #[trigger] versions@[j]),
            forall|j: int|
                0 <= j < best ==> precedes(#[trigger] versions@[j], versions@[best as int]),
        decreases versions.len() - k,
    {
        if is_older(&versions[best], &versions[k]) {
            best = k;
        }
        k += 1;
    }
    Some(best)
}

/// The three numeric components that `semver` reads from a version text, or
/// `None` where it rejects the text.
pub uninterp spec fn semver_components(text: Seq<char>) -> Option<(u64, u64, u64)>;

/// Calls `semver::Version::parse` and keeps the major, minor and patch
/// components of what it returns. Nothing is claimed about which texts are
/// accepted: the result is only given a name.
#[verifier::external_body]
fn semver_parse(text: &str) -> (parts: Option<(u64, u64, u64)>)
    ensures
        parts == semver_components(text@),
{
    match semver::Version::parse(text) {
        Ok(v) => Some((v.major, v.minor, v.patch)),
        Err(_) => None,
    }
}

/// The version made of three components, if there are any.
pub open spec fn version_of(parts: Option<(u64, u64, u64)>) -> Option<Version> {
    match parts {
        Some((major, minor, patch)) => Some(Version { major, minor, patch }),
        None => None,
    }
}

/// Builds a version from parsed components.
pub fn version_from_parts(parts: Option<(u64, u64, u64)>) -> (v: Option<Version>)
    ensures
        v == version_of(parts),
{
    match parts {
        Some((major, minor, patch)) => Some(Version { major, minor, patch }),
        None => None,
    }
}

/// Reads a version from its text. Pre-release and build labels are accepted
/// and dropped: a release is always counted from the numeric components.
pub fn parse_version(text: &str) -> (v: Option<Version>)
    ensures
        v == version_of(semver_components(text@)),
{
    version_from_parts(semver_parse(text))
}

} // verus!
