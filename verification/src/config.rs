//! Library configuration: the engine version in its integer and string
//! forms, the build's git revision, the plugin directory, and the set of
//! optional compression features the engine was built with.

use vstd::prelude::*;
use vstd::string::StringExecFns;

use crate::error::Error;
use crate::error::spec_contains_substr;
use crate::utils::decimal_string;
use crate::utils::spec_decimal;

verus! {

/// Optional features an engine build may carry.
#[derive(Clone, Copy, PartialEq, Eq, Structural, Debug)]
pub enum Feature {
    LAZPERF,
    ZSTD,
    ZLIB,
    LZMA,
    LIBXML2,
}

/// The version integer packs major, minor and patch as
/// `major * 10000 + minor * 100 + patch`, so minor and patch must stay
/// below 100 and the major version below this bound for the integer to
/// fit a signed 32-bit value.
pub open spec fn spec_version_in_range(major: int, minor: int, patch: int) -> bool {
    &&& 0 <= major <= 214747
    &&& 0 <= minor < 100
    &&& 0 <= patch < 100
}

/// The dotted version string `major.minor.patch`.
pub open spec fn spec_version_string(major: int, minor: int, patch: int) -> Seq<char> {
    spec_decimal(major as nat) + "."@ + spec_decimal(minor as nat) + "."@ + spec_decimal(
        patch as nat,
    )
}

/// The full version string: the dotted version followed by the git
/// revision.
pub open spec fn spec_full_version(c: Config) -> Seq<char> {
    c.version@ + " (git-version: "@ + c.sha@ + ")"@
}

/// A snapshot of the engine's build configuration.
#[derive(Clone, Debug)]
pub struct Config {
    /// Dotted `major.minor.patch` version string.
    pub version: String,
    pub major: i32,
    pub minor: i32,
    pub patch: i32,
    /// Git revision of the engine build.
    pub sha: String,
    /// Directory the engine loads plugins from.
    pub plugin_path: String,
    /// Optional features the engine build carries.
    pub features: Vec<Feature>,
}

impl Config {
    /// The version components are in range and the version string is their
    /// dotted rendering.
    pub open spec fn wf(self) -> bool {
        &&& spec_version_in_range(self.major as int, self.minor as int, self.patch as int)
        &&& self.version@ == spec_version_string(
            self.major as int,
            self.minor as int,
            self.patch as int,
        )
    }

    /// Assemble a configuration snapshot from its components, rendering the
    /// dotted version string. Components outside the ranges the version
    /// integer encodes are rejected.
    pub fn new(major: i32, minor: i32, patch: i32, sha: String, plugin_path: String, features: Vec<
        Feature,
    >) -> (r: Result<Config, Error>)
        ensures
            r is Ok <==> spec_version_in_range(major as int, minor as int, patch as int),
            r matches Ok(c) ==> {
                &&& c.wf()
                &&& c.major == major
                &&& c.minor == minor
                &&& c.patch == patch
                &&& c.sha@ == sha@
                &&& c.plugin_path@ == plugin_path@
                &&& c.features@ == features@
            },
            r matches Err(e) ==> e == Error::VersionOutOfRange,
    {
        if !(0 <= major && major <= 214747 && 0 <= minor && minor < 100 && 0 <= patch && patch
            < 100) {
            return Err(Error::VersionOutOfRange);
        }
        let mut version = decimal_string(major as u64);
        version.append(".");
        let d = decimal_string(minor as u64);
        version.append(d.as_str());
        version.append(".");
        let d2 = decimal_string(patch as u64);
        version.append(d2.as_str());
        proof {
            assert(version@ =~= spec_version_string(major as int, minor as int, patch as int));
        }
        Ok(Config { version, major, minor, patch, sha, plugin_path, features })
    }

    /// The packed version integer: `major * 10000 + minor * 100 + patch`.
    pub fn version_integer(&self) -> (r: i32)
        requires
            self.wf(),
        ensures
            r == self.major * 10000 + self.minor * 100 + self.patch,
    {
        self.major * 10000 + self.minor * 100 + self.patch
    }

    /// The full version string: dotted version plus git revision.
    pub fn full_version_string(&self) -> (r: String)
        ensures
            r@ == spec_full_version(*self),
    {
        let mut m = self.version.clone();
        m.append(" (git-version: ");
        m.append(self.sha.as_str());
        m.append(")");
        proof {
            assert(m@ =~= spec_full_version(*self));
        }
        m
    }

    /// Whether the engine build carries the feature.
    pub fn has_feature(&self, f: Feature) -> (r: bool)
        ensures
            r == self.features@.contains(f),
    {
        let mut i: usize = 0;
        while i < self.features.len()
            invariant
                0 <= i <= self.features.len(),
                forall|j: int| 0 <= j < i ==> self.features@[j] != f,
            decreases self.features.len() - i,
        {
            if self.features[i] == f {
                return true;
            }
            i = i + 1;
        }
        false
    }
}

/// The version integer determines the components it was packed from: for
/// in-range components, dividing the integer back out recovers exactly the
/// major, minor and patch versions.
pub proof fn lemma_version_integer_roundtrip(major: int, minor: int, patch: int)
    requires
        spec_version_in_range(major, minor, patch),
    ensures
        (major * 10000 + minor * 100 + patch) / 10000 == major,
        ((major * 10000 + minor * 100 + patch) / 100) % 100 == minor,
        (major * 10000 + minor * 100 + patch) % 100 == patch,
{
    assert(0 <= minor * 100 + patch < 10000);
    assert(0 <= minor * 100 + patch < 10000 ==> (major * 10000 + (minor * 100 + patch)) / 10000
        == major) by (nonlinear_arith);
    assert((major * 10000 + minor * 100 + patch) == (major * 100 + minor) * 100 + patch)
        by (nonlinear_arith);
    assert(0 <= patch < 100 ==> ((major * 100 + minor) * 100 + patch) / 100 == major * 100 + minor
        && ((major * 100 + minor) * 100 + patch) % 100 == patch) by (nonlinear_arith);
    assert(0 <= minor < 100 && 0 <= major * 100 + minor ==> (major * 100 + minor) % 100 == minor)
        by (nonlinear_arith);
}

/// The full version string carries the git revision verbatim.
pub proof fn lemma_full_version_contains_sha(c: Config)
    ensures
        spec_contains_substr(spec_full_version(c), c.sha@),
{
    reveal_strlit(" (git-version: ");
    reveal_strlit(")");
    let s = spec_full_version(c);
    let pat = c.sha@;
    let k = c.version@.len() + 15;
    assert(s.subrange(k as int, k + pat.len() as int) =~= pat);
    assert(s.subrange(k as int, k + pat.len() as int) == pat);
}

} // verus!
