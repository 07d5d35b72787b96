//! Build target descriptions: architecture, operating system, derivative and
//! version requirement. Compatibility metadata for pack-like actions.

use vstd::prelude::*;
use vstd::string::*;

verus! {

/// An operating system family.
#[derive(Clone, Debug)]
pub enum OsVariant {
    Android,
    Ios,
    Linux,
    UnixLike(String),
    Windows,
    MacOs,
    Other(String),
}

/// How strictly a target's OS version is pinned.
#[derive(Clone, Debug)]
pub enum OsVersionSpecification {
    No,
    /// Even on a version mismatch the artifact may still work.
    Weak(String),
    Strong(String),
}

/// A target platform a pack-like action produces artifacts for.
#[derive(Clone, Debug)]
pub struct TargetDescription {
    pub arch: String,
    pub os: OsVariant,
    pub derivative: String,
    pub version: OsVersionSpecification,
}

/// The text form of an OS family.
pub open spec fn spec_os_str(os: OsVariant) -> Seq<char> {
    match os {
        OsVariant::Android => "android"@,
        OsVariant::Ios => "ios"@,
        OsVariant::Linux => "linux"@,
        OsVariant::UnixLike(nix) => "unix-"@ + nix@,
        OsVariant::Windows => "windows"@,
        OsVariant::MacOs => "macos"@,
        OsVariant::Other(other) => other@,
    }
}

/// The text form of a version requirement.
pub open spec fn spec_os_version_str(v: OsVersionSpecification) -> Seq<char> {
    match v {
        OsVersionSpecification::No => "any"@,
        OsVersionSpecification::Weak(ver) => "^"@ + ver@,
        OsVersionSpecification::Strong(ver) => ver@,
    }
}

/// The `arch/os@derivative@version` rendering of a target.
pub open spec fn spec_target_str(t: TargetDescription) -> Seq<char> {
    t.arch@ + seq!['/'] + spec_os_str(t.os) + seq!['@'] + t.derivative@ + seq!['@']
        + spec_os_version_str(t.version)
}

impl TargetDescription {
    /// Renders this target as `arch/os@derivative@version`.
    pub fn render(&self) -> (r: String)
        ensures
            r@ == spec_target_str(*self),
    {
        let mut r = self.arch.clone();
        r.append("/");
        proof {
            reveal_strlit("/");
            assert(r@ =~= self.arch@ + seq!['/']);
        }
        match &self.os {
            OsVariant::Android => r.append("android"),
            OsVariant::Ios => r.append("ios"),
            OsVariant::Linux => r.append("linux"),
            OsVariant::UnixLike(nix) => {
                r.append("unix-");
                r.append(nix.as_str());
            },
            OsVariant::Windows => r.append("windows"),
            OsVariant::MacOs => r.append("macos"),
            OsVariant::Other(other) => r.append(other.as_str()),
        }
        r.append("@");
        r.append(self.derivative.as_str());
        r.append("@");
        proof {
            reveal_strlit("@");
            assert(r@ =~= self.arch@ + seq!['/'] + spec_os_str(self.os) + seq!['@']
                + self.derivative@ + seq!['@']);
        }
        match &self.version {
            OsVersionSpecification::No => r.append("any"),
            OsVersionSpecification::Weak(ver) => {
                r.append("^");
                r.append(ver.as_str());
            },
            OsVersionSpecification::Strong(ver) => r.append(ver.as_str()),
        }
        r
    }
}

} // verus!
