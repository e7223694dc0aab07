//! Deterministic names: release-asset names and on-disk paths for a tool,
//! computed from the platform and architecture alone.

use vstd::prelude::*;
use vstd::string::StringExecFns;

verus! {

/// Operating system the provisioned binary must run on.
#[derive(Clone, Copy, PartialEq, Eq, Structural, Debug)]
pub enum Platform {
    Mac,
    Linux,
    Windows,
}

/// Processor architecture the provisioned binary must run on.
#[derive(Clone, Copy, PartialEq, Eq, Structural, Debug)]
pub enum Architecture {
    Aarch64,
    X86,
    X8664,
}

/// Archive format the release assets use for a platform.
#[derive(Clone, Copy, PartialEq, Eq, Structural, Debug)]
pub enum ArchiveKind {
    Zip,
    GzipTar,
}

/// The operating-system token used inside asset names.
pub open spec fn os_token(platform: Platform) -> Seq<char> {
    match platform {
        Platform::Mac => "darwin"@,
        Platform::Linux => "linux"@,
        Platform::Windows => "windows"@,
    }
}

/// The architecture token used inside asset names. On Linux the 64-bit
/// variants select the musl build of the tool.
pub open spec fn arch_token(platform: Platform, architecture: Architecture) -> Seq<char> {
    match architecture {
        Architecture::Aarch64 => if platform is Linux {
            "aarch64-musl"@
        } else {
            "aarch64"@
        },
        Architecture::X86 => "x86"@,
        Architecture::X8664 => if platform is Linux {
            "x86_64-musl"@
        } else {
            "x86_64"@
        },
    }
}

/// The archive file-name suffix for a platform: releases ship zip archives
/// for Windows and gzipped tarballs for everything else.
pub open spec fn archive_suffix(platform: Platform) -> Seq<char> {
    if platform is Windows {
        "zip"@
    } else {
        "tar.gz"@
    }
}

/// The archive format matching `archive_suffix(platform)`.
pub open spec fn spec_archive_kind(platform: Platform) -> ArchiveKind {
    if platform is Windows {
        ArchiveKind::Zip
    } else {
        ArchiveKind::GzipTar
    }
}

/// Stem of the asset name: `{tool}-{os}-{arch}`.
pub open spec fn asset_stem(tool: Seq<char>, platform: Platform, architecture: Architecture) -> Seq<char> {
    tool + "-"@ + os_token(platform) + "-"@ + arch_token(platform, architecture)
}

/// Full asset name: `{tool}-{os}-{arch}.{suffix}`.
pub open spec fn asset_name(tool: Seq<char>, platform: Platform, architecture: Architecture) -> Seq<char> {
    asset_stem(tool, platform, architecture) + "."@ + archive_suffix(platform)
}

/// Name of the directory a release version is unpacked into:
/// `{tool}-{version}`.
pub open spec fn version_dir_name(tool: Seq<char>, version: Seq<char>) -> Seq<char> {
    tool + "-"@ + version
}

/// Path of the cached binary inside the version directory:
/// `{tool}-{version}/{tool}`.
pub open spec fn cached_binary_path(tool: Seq<char>, version: Seq<char>) -> Seq<char> {
    version_dir_name(tool, version) + "/"@ + tool
}

/// Executable counterpart of `os_token`.
pub fn os_token_str(platform: Platform) -> (r: &'static str)
    ensures
        r@ == os_token(platform),
{
    match platform {
        Platform::Mac => "darwin",
        Platform::Linux => "linux",
        Platform::Windows => "windows",
    }
}

/// Executable counterpart of `arch_token`.
pub fn arch_token_str(platform: Platform, architecture: Architecture) -> (r: &'static str)
    ensures
        r@ == arch_token(platform, architecture),
{
    match architecture {
        Architecture::Aarch64 => if matches!(platform, Platform::Linux) {
            "aarch64-musl"
        } else {
            "aarch64"
        },
        Architecture::X86 => "x86",
        Architecture::X8664 => if matches!(platform, Platform::Linux) {
            "x86_64-musl"
        } else {
            "x86_64"
        },
    }
}

/// Executable counterpart of `archive_suffix`.
pub fn archive_suffix_str(platform: Platform) -> (r: &'static str)
    ensures
        r@ == archive_suffix(platform),
{
    match platform {
        Platform::Windows => "zip",
        _ => "tar.gz",
    }
}

/// Executable counterpart of `spec_archive_kind`.
pub fn archive_kind(platform: Platform) -> (r: ArchiveKind)
    ensures
        r == spec_archive_kind(platform),
{
    match platform {
        Platform::Windows => ArchiveKind::Zip,
        _ => ArchiveKind::GzipTar,
    }
}

/// What each asset name adds after the tool name: the two separators, the
/// dot, the two tokens and the archive suffix.
pub open spec fn asset_name_tail_len(platform: Platform, architecture: Architecture) -> nat {
    3 + os_token(platform).len() + arch_token(platform, architecture).len()
        + archive_suffix(platform).len()
}

proof fn lemma_token_lengths()
    ensures
        os_token(Platform::Mac).len() == 6,
        os_token(Platform::Linux).len() == 5,
        os_token(Platform::Windows).len() == 7,
        arch_token(Platform::Mac, Architecture::Aarch64).len() == 7,
        arch_token(Platform::Linux, Architecture::Aarch64).len() == 12,
        arch_token(Platform::Windows, Architecture::Aarch64).len() == 7,
        arch_token(Platform::Mac, Architecture::X86).len() == 3,
        arch_token(Platform::Linux, Architecture::X86).len() == 3,
        arch_token(Platform::Windows, Architecture::X86).len() == 3,
        arch_token(Platform::Mac, Architecture::X8664).len() == 6,
        arch_token(Platform::Linux, Architecture::X8664).len() == 11,
        arch_token(Platform::Windows, Architecture::X8664).len() == 6,
        archive_suffix(Platform::Mac).len() == 6,
        archive_suffix(Platform::Linux).len() == 6,
        archive_suffix(Platform::Windows).len() == 3,
        "-"@.len() == 1,
        "."@.len() == 1,
{
    reveal_strlit("-");
    reveal_strlit(".");
    reveal_strlit("darwin");
    reveal_strlit("linux");
    reveal_strlit("windows");
    reveal_strlit("aarch64");
    reveal_strlit("aarch64-musl");
    reveal_strlit("x86");
    reveal_strlit("x86_64");
    reveal_strlit("x86_64-musl");
    reveal_strlit("zip");
    reveal_strlit("tar.gz");
}

/// Asset-name computation is a function of tool, platform and
/// architecture alone, and — the tool name held fixed — of the platform
/// and architecture injectively: two asset names agree exactly when both
/// the platform and the architecture agree.
pub proof fn lemma_asset_name_injective(
    tool: Seq<char>,
    p1: Platform,
    a1: Architecture,
    p2: Platform,
    a2: Architecture,
)
    ensures
        asset_name(tool, p1, a1) == asset_name(tool, p2, a2) <==> (p1 == p2 && a1 == a2),
{
    lemma_token_lengths();
    if asset_name(tool, p1, a1) == asset_name(tool, p2, a2) {
        assert(asset_name(tool, p1, a1).len() == tool.len() + asset_name_tail_len(p1, a1));
        assert(asset_name(tool, p2, a2).len() == tool.len() + asset_name_tail_len(p2, a2));
        // The nine (platform, architecture) pairs give nine distinct tail
        // lengths, so equal names force equal pairs.
        assert(p1 == p2 && a1 == a2);
    }
}

/// The musl-suffixed architecture tokens belong to Linux alone: no other
/// platform's token equals either of them.
pub proof fn lemma_musl_tokens_only_linux(p: Platform, a: Architecture)
    ensures
        arch_token(p, a) == arch_token(Platform::Linux, Architecture::Aarch64) <==> (p is Linux
            && a is Aarch64),
        arch_token(p, a) == arch_token(Platform::Linux, Architecture::X8664) <==> (p is Linux
            && a is X8664),
{
    lemma_token_lengths();
}

/// Builds the asset name the release must carry for this platform and
/// architecture: `{tool}-{os}-{arch}.{suffix}`.
pub fn compute_asset_name(tool: &str, platform: Platform, architecture: Architecture) -> (r: String)
    ensures
        r@ == asset_name(tool@, platform, architecture),
{
    let mut name = tool.to_owned();
    name.append("-");
    name.append(os_token_str(platform));
    name.append("-");
    name.append(arch_token_str(platform, architecture));
    name.append(".");
    name.append(archive_suffix_str(platform));
    name
}

/// Builds the name of the directory version `version` of `tool` is
/// unpacked into: `{tool}-{version}`.
pub fn compute_version_dir(tool: &str, version: &str) -> (r: String)
    ensures
        r@ == version_dir_name(tool@, version@),
{
    let mut dir = tool.to_owned();
    dir.append("-");
    dir.append(version);
    dir
}

/// Builds the path of the cached binary for version `version` of `tool`:
/// `{tool}-{version}/{tool}`.
pub fn compute_binary_path(tool: &str, version: &str) -> (r: String)
    ensures
        r@ == cached_binary_path(tool@, version@),
{
    let mut path = compute_version_dir(tool, version);
    path.append("/");
    path.append(tool);
    path
}

} // verus!
