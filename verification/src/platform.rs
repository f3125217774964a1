//! Mapping of host-reported operating-system and architecture strings to the
//! vendor's artifact naming convention.

use vstd::prelude::*;
use vstd::string::StringExecFns;
use crate::strings::str_eq;

verus! {

/// The operating systems the vendor publishes builds for.
#[derive(Clone, Copy, PartialEq, Eq, Structural, Debug)]
pub enum Os {
    Macos,
    Linux,
    Windows,
    Openbsd,
    Freebsd,
}

/// The architectures the vendor publishes builds for.
#[derive(Clone, Copy, PartialEq, Eq, Structural, Debug)]
pub enum Arch {
    X86,
    X86_64,
    Aarch64,
}

/// A supported (operating system, architecture) pair.
#[derive(Clone, Copy, PartialEq, Eq, Structural, Debug)]
pub struct PlatformTarget {
    pub os: Os,
    pub arch: Arch,
}

/// Which axis of the platform was unsupported.
#[derive(Clone, Copy, PartialEq, Eq, Structural, Debug)]
pub enum PlatformAxis {
    OperatingSystem,
    Architecture,
}

/// A host-reported platform string outside the supported sets.
#[derive(Debug)]
pub struct UnsupportedPlatformError {
    pub axis: PlatformAxis,
    pub value: String,
}

/// The operating system a host-reported string stands for, if supported.
pub open spec fn os_of(s: Seq<char>) -> Option<Os> {
    if s == "macos"@ {
        Some(Os::Macos)
    } else if s == "linux"@ {
        Some(Os::Linux)
    } else if s == "windows"@ {
        Some(Os::Windows)
    } else if s == "openbsd"@ {
        Some(Os::Openbsd)
    } else if s == "freebsd"@ {
        Some(Os::Freebsd)
    } else {
        None
    }
}

/// The architecture a host-reported string stands for, if supported.
pub open spec fn arch_of(s: Seq<char>) -> Option<Arch> {
    if s == "x86"@ {
        Some(Arch::X86)
    } else if s == "x86_64"@ {
        Some(Arch::X86_64)
    } else if s == "aarch64"@ {
        Some(Arch::Aarch64)
    } else {
        None
    }
}

/// Executable form of [`os_of`].
pub fn parse_os(s: &str) -> (r: Option<Os>)
    ensures
        r == os_of(s@),
{
    if str_eq(s, "macos") {
        Some(Os::Macos)
    } else if str_eq(s, "linux") {
        Some(Os::Linux)
    } else if str_eq(s, "windows") {
        Some(Os::Windows)
    } else if str_eq(s, "openbsd") {
        Some(Os::Openbsd)
    } else if str_eq(s, "freebsd") {
        Some(Os::Freebsd)
    } else {
        None
    }
}

/// Executable form of [`arch_of`].
pub fn parse_arch(s: &str) -> (r: Option<Arch>)
    ensures
        r == arch_of(s@),
{
    if str_eq(s, "x86") {
        Some(Arch::X86)
    } else if str_eq(s, "x86_64") {
        Some(Arch::X86_64)
    } else if str_eq(s, "aarch64") {
        Some(Arch::Aarch64)
    } else {
        None
    }
}

/// Maps the host-reported strings to a [`PlatformTarget`].
///
/// The architecture is examined first: when both axes are unsupported the
/// error reports the architecture.
pub fn resolve_platform(os: &str, arch: &str) -> (r: Result<
    PlatformTarget,
    UnsupportedPlatformError,
>)
    ensures
        (r is Ok) == (os_of(os@) is Some && arch_of(arch@) is Some),
        r matches Ok(t) ==> Some(t.os) == os_of(os@) && Some(t.arch) == arch_of(arch@),
        r matches Err(e) ==> if arch_of(arch@) is None {
            e.axis == PlatformAxis::Architecture && e.value@ == arch@
        } else {
            e.axis == PlatformAxis::OperatingSystem && e.value@ == os@
        },
{
    let arch_parsed = match parse_arch(arch) {
        Some(a) => a,
        None => {
            return Err(
                UnsupportedPlatformError {
                    axis: PlatformAxis::Architecture,
                    value: String::from_str(arch),
                },
            );
        },
    };
    let os_parsed = match parse_os(os) {
        Some(o) => o,
        None => {
            return Err(
                UnsupportedPlatformError {
                    axis: PlatformAxis::OperatingSystem,
                    value: String::from_str(os),
                },
            );
        },
    };
    Ok(PlatformTarget { os: os_parsed, arch: arch_parsed })
}

} // verus!
