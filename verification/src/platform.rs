//! The platform model: operating-system and architecture tags, and the names
//! derived from them — release-asset names, the version-scoped installation
//! directory, and the runtime binary path inside it.

use vstd::prelude::*;
use vstd::string::*;

verus! {

/// Operating systems the host environment can report.
#[derive(Clone, Copy, PartialEq, Eq, Structural, Debug)]
pub enum Os {
    Mac,
    Linux,
    Windows,
}

/// CPU architectures the host environment can report.
#[derive(Clone, Copy, PartialEq, Eq, Structural, Debug)]
pub enum Arch {
    Aarch64,
    X8664,
    X86,
}

/// Archive formats the host's download-and-extract helper can unpack.
#[derive(Clone, Copy, PartialEq, Eq, Structural, Debug)]
pub enum ArchiveKind {
    Zip,
    GzipTar,
}

/// The OS tag embedded in a release-asset name.
pub open spec fn spec_os_tag(os: Os) -> Seq<char> {
    match os {
        Os::Mac => "darwin"@,
        Os::Linux => "linux"@,
        Os::Windows => "win"@,
    }
}

/// The architecture tag embedded in a release-asset name.
pub open spec fn spec_arch_tag(arch: Arch) -> Seq<char> {
    match arch {
        Arch::Aarch64 => "arm64"@,
        Arch::X8664 => "x64"@,
        Arch::X86 => "x86"@,
    }
}

/// The package-format extension of a release asset, determined by the OS.
pub open spec fn spec_archive_ext(os: Os) -> Seq<char> {
    match os {
        Os::Mac => "tar.gz"@,
        Os::Linux => "tar.xz"@,
        Os::Windows => "zip"@,
    }
}

/// The archive kind handed to the download helper, determined by the OS.
pub open spec fn spec_archive_kind(os: Os) -> ArchiveKind {
    match os {
        Os::Windows => ArchiveKind::Zip,
        _ => ArchiveKind::GzipTar,
    }
}

/// The release-asset name expected for a version on a platform.
pub open spec fn spec_asset_name(version: Seq<char>, os: Os, arch: Arch) -> Seq<char> {
    "node-"@ + version + "-"@ + spec_os_tag(os) + "-"@ + spec_arch_tag(arch) + "."@
        + spec_archive_ext(os)
}

/// The version-scoped directory a release is installed into.
pub open spec fn spec_version_dir(version: Seq<char>) -> Seq<char> {
    "node-"@ + version
}

/// The runtime binary path inside the version-scoped directory: a top-level
/// executable on Windows, a `bin/`-relative one elsewhere.
pub open spec fn spec_binary_path(version: Seq<char>, os: Os) -> Seq<char> {
    spec_version_dir(version) + if os is Windows {
        "/node.exe"@
    } else {
        "/bin/node"@
    }
}

pub fn os_tag(os: Os) -> (r: &'static str)
    ensures
        r@ == spec_os_tag(os),
{
    match os {
        Os::Mac => "darwin",
        Os::Linux => "linux",
        Os::Windows => "win",
    }
}

pub fn arch_tag(arch: Arch) -> (r: &'static str)
    ensures
        r@ == spec_arch_tag(arch),
{
    match arch {
        Arch::Aarch64 => "arm64",
        Arch::X8664 => "x64",
        Arch::X86 => "x86",
    }
}

pub fn archive_ext(os: Os) -> (r: &'static str)
    ensures
        r@ == spec_archive_ext(os),
{
    match os {
        Os::Mac => "tar.gz",
        Os::Linux => "tar.xz",
        Os::Windows => "zip",
    }
}

pub fn archive_kind(os: Os) -> (r: ArchiveKind)
    ensures
        r == spec_archive_kind(os),
{
    match os {
        Os::Windows => ArchiveKind::Zip,
        _ => ArchiveKind::GzipTar,
    }
}

/// Composes the expected asset name: version, OS tag, architecture tag, and
/// the OS-dependent package-format extension.
pub fn asset_name(version: &str, os: Os, arch: Arch) -> (r: String)
    ensures
        r@ == spec_asset_name(version@, os, arch),
{
    let mut r = String::from_str("node-");
    r.append(version);
    r.append("-");
    r.append(os_tag(os));
    r.append("-");
    r.append(arch_tag(arch));
    r.append(".");
    r.append(archive_ext(os));
    proof {
        assert(r@ =~= spec_asset_name(version@, os, arch));
    }
    r
}

/// The version-scoped installation directory for a release version.
pub fn version_dir(version: &str) -> (r: String)
    ensures
        r@ == spec_version_dir(version@),
{
    let mut r = String::from_str("node-");
    r.append(version);
    r
}

/// The expected local path of the runtime binary for a release version.
pub fn binary_path(version: &str, os: Os) -> (r: String)
    ensures
        r@ == spec_binary_path(version@, os),
{
    let mut r = version_dir(version);
    match os {
        Os::Windows => r.append("/node.exe"),
        _ => r.append("/bin/node"),
    }
    r
}

/// Asset-name computation is a pure mapping: for every platform pair the
/// name frames the version string with exactly one of the nine OS-tag /
/// architecture-tag combinations, the package-format extension and archive
/// kind are determined by the OS alone, and the binary layout inside the
/// installation directory follows the same OS split.
pub proof fn lemma_asset_name_shape(version: Seq<char>, os: Os, arch: Arch)
    ensures
        spec_asset_name(version, os, arch) == "node-"@ + version + "-"@ + spec_os_tag(os) + "-"@
            + spec_arch_tag(arch) + "."@ + spec_archive_ext(os),
        (spec_os_tag(os) == "darwin"@ && spec_archive_ext(os) == "tar.gz"@ && spec_archive_kind(
            os,
        ) == ArchiveKind::GzipTar) || (spec_os_tag(os) == "linux"@ && spec_archive_ext(os)
            == "tar.xz"@ && spec_archive_kind(os) == ArchiveKind::GzipTar) || (spec_os_tag(os)
            == "win"@ && spec_archive_ext(os) == "zip"@ && spec_archive_kind(os)
            == ArchiveKind::Zip),
        spec_arch_tag(arch) == "arm64"@ || spec_arch_tag(arch) == "x64"@ || spec_arch_tag(arch)
            == "x86"@,
        spec_binary_path(version, os) == spec_version_dir(version) + if os is Windows {
            "/node.exe"@
        } else {
            "/bin/node"@
        },
{
}

} // verus!
