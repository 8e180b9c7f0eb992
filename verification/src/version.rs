//! The version gate: the rule is active only when the compilation unit's
//! configured minimum-supported version reaches a fixed threshold.

use vstd::prelude::*;

verus! {

/// A language version, ordered lexicographically by (major, minor, patch).
#[derive(Clone, Copy, PartialEq, Eq, Structural, Debug)]
pub struct Version {
    pub major: u64,
    pub minor: u64,
    pub patch: u64,
}

/// `a` is at or above `b` in the lexicographic order on (major, minor, patch).
pub open spec fn version_at_least(a: Version, b: Version) -> bool {
    ||| a.major > b.major
    ||| a.major == b.major && a.minor > b.minor
    ||| a.major == b.major && a.minor == b.minor && a.patch >= b.patch
}

impl Version {
    pub fn new(major: u64, minor: u64, patch: u64) -> (v: Version)
        ensures
            v == (Version { major, minor, patch }),
    {
        Version { major, minor, patch }
    }

    /// Whether this configured minimum-supported version is at or above
    /// `threshold`.
    pub fn meets(&self, threshold: &Version) -> (r: bool)
        ensures
            r == version_at_least(*self, *threshold),
    {
        if self.major != threshold.major {
            self.major > threshold.major
        } else if self.minor != threshold.minor {
            self.minor > threshold.minor
        } else {
            self.patch >= threshold.patch
        }
    }
}

/// The version from which the `std::str` re-exports are the preferred form;
/// the rule stays silent for units configured below it.
pub open spec fn spec_str_from_utf8_threshold() -> Version {
    Version { major: 1, minor: 87, patch: 0 }
}

/// The threshold value, for executable callers.
pub fn str_from_utf8_threshold() -> (v: Version)
    ensures
        v == spec_str_from_utf8_threshold(),
{
    Version { major: 1, minor: 87, patch: 0 }
}

/// The rule is active for a unit whose configured minimum version is `msrv`.
pub open spec fn rule_active(msrv: Version) -> bool {
    version_at_least(msrv, spec_str_from_utf8_threshold())
}

} // verus!
