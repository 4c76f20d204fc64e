//! The stored contract identity and semantic version.
//!
//! The host convention keeps, for each contract instance, the contract's
//! identity tag and the semantic version of the code that wrote its state.
//! Migration is permitted only towards a strictly newer version of the same
//! contract identity.
use vstd::prelude::*;

verus! {

/// A semantic version, reduced to its numeric precedence fields.
#[derive(Clone, Copy, Debug, PartialEq, Eq, Structural)]
pub struct SemVer {
    pub major: u64,
    pub minor: u64,
    pub patch: u64,
}

/// Strict precedence order on semantic versions.
pub open spec fn semver_lt(a: SemVer, b: SemVer) -> bool {
    ||| a.major < b.major
    ||| (a.major == b.major && a.minor < b.minor)
    ||| (a.major == b.major && a.minor == b.minor && a.patch < b.patch)
}

impl SemVer {
    /// Decides whether `self` strictly precedes `other`.
    pub fn precedes(&self, other: &SemVer) -> (r: bool)
        ensures
            r == semver_lt(*self, *other),
    {
        if self.major != other.major {
            self.major < other.major
        } else if self.minor != other.minor {
            self.minor < other.minor
        } else {
            self.patch < other.patch
        }
    }
}

/// The persisted contract-identity/version record.
#[derive(Debug, PartialEq, Eq)]
pub struct VersionInfo {
    /// The contract identity tag, e.g. a registry path.
    pub contract: String,
    /// The semantic version of the code that last wrote the state.
    pub version: SemVer,
}

impl Clone for VersionInfo {
    fn clone(&self) -> (res: Self)
        ensures
            res == *self,
    {
        VersionInfo { contract: self.contract.clone(), version: self.version }
    }
}

} // verus!
