//! Artifact naming: the archive name, the expected local binary name and the
//! download URL are pure functions of the version and the platform target.

use vstd::prelude::*;
use vstd::string::StringExecFns;
use crate::platform::{Arch, Os, PlatformTarget};

verus! {

/// The vendor's token for an operating system in artifact names.
pub open spec fn os_token(os: Os) -> Seq<char> {
    match os {
        Os::Macos => "darwin"@,
        Os::Linux => "linux"@,
        Os::Windows => "windows"@,
        Os::Openbsd => "openbsd"@,
        Os::Freebsd => "freebsd"@,
    }
}

/// The vendor's token for an architecture in artifact names.
pub open spec fn arch_token(arch: Arch) -> Seq<char> {
    match arch {
        Arch::X86 => "386"@,
        Arch::X86_64 => "amd64"@,
        Arch::Aarch64 => "arm64"@,
    }
}

/// The archive file name for a version and platform target.
pub open spec fn archive_name_spec(version: Seq<char>, t: PlatformTarget) -> Seq<char> {
    "terraform-ls_"@ + version + "_"@ + os_token(t.os) + "_"@ + arch_token(t.arch) + ".zip"@
}

/// The expected local binary name for a platform target.
pub open spec fn binary_name_spec(t: PlatformTarget) -> Seq<char> {
    if t.os is Windows {
        "terraform-ls.exe"@
    } else {
        "terraform-ls"@
    }
}

/// The vendor's release URL prefix.
pub open spec fn release_base() -> Seq<char> {
    "https://releases.hashicorp.com/terraform-ls/"@
}

/// The canonical download URL for a version and platform target.
pub open spec fn download_url_spec(version: Seq<char>, t: PlatformTarget) -> Seq<char> {
    release_base() + version + "/"@ + archive_name_spec(version, t)
}

/// Executable form of [`os_token`].
pub fn os_token_str(os: Os) -> (r: &'static str)
    ensures
        r@ == os_token(os),
{
    match os {
        Os::Macos => "darwin",
        Os::Linux => "linux",
        Os::Windows => "windows",
        Os::Openbsd => "openbsd",
        Os::Freebsd => "freebsd",
    }
}

/// Executable form of [`arch_token`].
pub fn arch_token_str(arch: Arch) -> (r: &'static str)
    ensures
        r@ == arch_token(arch),
{
    match arch {
        Arch::X86 => "386",
        Arch::X86_64 => "amd64",
        Arch::Aarch64 => "arm64",
    }
}

/// Builds the archive file name, e.g. `terraform-ls_0.32.7_linux_amd64.zip`.
pub fn archive_name(version: &str, t: PlatformTarget) -> (r: String)
    ensures
        r@ == archive_name_spec(version@, t),
{
    let mut s = String::from_str("terraform-ls_");
    s.append(version);
    s.append("_");
    s.append(os_token_str(t.os));
    s.append("_");
    s.append(arch_token_str(t.arch));
    s.append(".zip");
    proof {
        assert(s@ =~= archive_name_spec(version@, t));
    }
    s
}

/// Builds the expected local binary name: `terraform-ls.exe` on windows,
/// `terraform-ls` otherwise.
pub fn binary_name(t: PlatformTarget) -> (r: String)
    ensures
        r@ == binary_name_spec(t),
{
    match t.os {
        Os::Windows => String::from_str("terraform-ls.exe"),
        _ => String::from_str("terraform-ls"),
    }
}

/// Builds the canonical download URL for a version and platform target.
pub fn download_url(version: &str, t: PlatformTarget) -> (r: String)
    ensures
        r@ == download_url_spec(version@, t),
{
    let mut s = String::from_str("https://releases.hashicorp.com/terraform-ls/");
    s.append(version);
    s.append("/");
    let name = archive_name(version, t);
    s.append(name.as_str());
    proof {
        assert(s@ =~= download_url_spec(version@, t));
    }
    s
}

} // verus!
