//! Guessing the host's identifier from the architecture and operating-system
//! names that the running program was built for, by fixed tables.

use vstd::prelude::*;

use crate::text::same_text;
use crate::triple::{TargetTriple, TripleModel};

verus! {

/// The OS family that an operating-system name maps to. `rumprun` says whether a
/// NetBSD host runs the rump kernel.
pub open spec fn os_family_of(os: Seq<char>, rumprun: bool) -> Seq<char> {
    if os == "linux"@ {
        "unknown-linux"@
    } else if os == "macos"@ {
        "apple-darwin"@
    } else if os == "windows"@ {
        "pc-windows"@
    } else if os == "netbsd"@ {
        if rumprun {
            "rumprun-netbsd"@
        } else {
            "unknown-netbsd"@
        }
    } else if os == "ios"@ {
        "apple-ios"@
    } else if os == "freebsd"@ {
        "unknown-freebsd"@
    } else if os == "illumos"@ {
        "unknown-illumos"@
    } else {
        "unknown"@
    }
}

/// The environment of a Linux host with the given architecture.
pub open spec fn linux_env_of(arch: Seq<char>) -> Seq<char> {
    if arch == "arm"@ {
        "gnueabi"@
    } else if arch == "armv7"@ || arch == "armv7s"@ {
        "gnueabihf"@
    } else if arch == "mips64"@ || arch == "mips64el"@ {
        "gnuabi64"@
    } else {
        "gnu"@
    }
}

/// The environment that an operating-system name and architecture map to.
pub open spec fn env_of(os: Seq<char>, arch: Seq<char>) -> Seq<char> {
    if os == "windows"@ {
        "msvc"@
    } else if os == "linux"@ {
        linux_env_of(arch)
    } else if os == "solaris"@ || os == "macos"@ || os == "netbsd"@ || os == "ios"@ || os
        == "freebsd"@ || os == "illumos"@ {
        "gnu"@
    } else {
        "failed"@
    }
}

/// The identifier guessed for a host: all three fields present.
pub open spec fn host_model(arch: Seq<char>, os: Seq<char>, rumprun: bool) -> TripleModel {
    TripleModel {
        arch: Some(arch),
        os: Some(os_family_of(os, rumprun)),
        env: Some(env_of(os, arch)),
    }
}

/// Maps an operating-system name to its OS family.
pub fn os_family(os: &str, rumprun: bool) -> (r: String)
    ensures
        r@ == os_family_of(os@, rumprun),
{
    let family = if same_text(os, "linux") {
        "unknown-linux"
    } else if same_text(os, "macos") {
        "apple-darwin"
    } else if same_text(os, "windows") {
        "pc-windows"
    } else if same_text(os, "netbsd") {
        if rumprun {
            "rumprun-netbsd"
        } else {
            "unknown-netbsd"
        }
    } else if same_text(os, "ios") {
        "apple-ios"
    } else if same_text(os, "freebsd") {
        "unknown-freebsd"
    } else if same_text(os, "illumos") {
        "unknown-illumos"
    } else {
        "unknown"
    };
    String::from_str(family)
}

/// Maps an operating-system name and an architecture to an environment.
pub fn environment(os: &str, arch: &str) -> (r: String)
    ensures
        r@ == env_of(os@, arch@),
{
    let env = if same_text(os, "windows") {
        "msvc"
    } else if same_text(os, "linux") {
        if same_text(arch, "arm") {
            "gnueabi"
        } else if same_text(arch, "armv7") || same_text(arch, "armv7s") {
            "gnueabihf"
        } else if same_text(arch, "mips64") || same_text(arch, "mips64el") {
            "gnuabi64"
        } else {
            "gnu"
        }
    } else if same_text(os, "solaris") || same_text(os, "macos") || same_text(os, "netbsd")
        || same_text(os, "ios") || same_text(os, "freebsd") || same_text(os, "illumos") {
        "gnu"
    } else {
        "failed"
    };
    String::from_str(env)
}

/// The identifier guessed for a host from its architecture and operating-system
/// names; every field is present.
pub fn host_triple(arch: &str, os: &str, rumprun: bool) -> (r: TargetTriple)
    ensures
        r@ == host_model(arch@, os@, rumprun),
{
    TargetTriple::new(
        Some(String::from_str(arch)),
        Some(os_family(os, rumprun)),
        Some(environment(os, arch)),
    )
}

} // verus!
