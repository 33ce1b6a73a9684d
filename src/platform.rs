//! Platforms, release asset names and the install layout.
use vstd::prelude::*;
use vstd::string::StringExecFns;

verus! {

/// Name of the language server executable, and the stem of every asset name.
pub const LS_EXECUTABLE_NAME: &'static str = "ltex-ls-plus";

/// Repository whose releases carry the language server.
pub const LS_REPO: &'static str = "ltex-plus/ltex-ls-plus";

/// Operating system family of the host.
#[derive(Clone, Copy, Debug, PartialEq, Eq, Structural)]
pub enum Os {
    Mac,
    Linux,
    Windows,
}

/// CPU architecture of the host. `X86` (32-bit) has no release.
#[derive(Clone, Copy, Debug, PartialEq, Eq, Structural)]
pub enum Architecture {
    Aarch64,
    X86,
    X8664,
}

/// Archive format of a release asset.
#[derive(Clone, Copy, Debug, PartialEq, Eq, Structural)]
pub enum ArchiveFormat {
    GzipTar,
    Zip,
}

pub open spec fn os_token_spec(os: Os) -> Seq<char> {
    match os {
        Os::Linux => "linux"@,
        Os::Mac => "macos"@,
        Os::Windows => "windows"@,
    }
}

pub open spec fn is_supported(arch: Architecture) -> bool {
    arch != Architecture::X86
}

pub open spec fn arch_token_spec(arch: Architecture) -> Seq<char>
    recommends
        is_supported(arch),
{
    match arch {
        Architecture::Aarch64 => "aarch64"@,
        _ => "x64"@,
    }
}

pub open spec fn archive_format_spec(os: Os) -> ArchiveFormat {
    match os {
        Os::Windows => ArchiveFormat::Zip,
        _ => ArchiveFormat::GzipTar,
    }
}

pub open spec fn extension_spec(format: ArchiveFormat) -> Seq<char> {
    match format {
        ArchiveFormat::Zip => "zip"@,
        ArchiveFormat::GzipTar => "tar.gz"@,
    }
}

/// `<tool>-<version>-<os>-<arch>.<ext>`
pub open spec fn asset_name_spec(version: Seq<char>, os: Os, arch: Architecture) -> Seq<char> {
    LS_EXECUTABLE_NAME@ + "-"@ + version + "-"@ + os_token_spec(os) + "-"@ + arch_token_spec(arch)
        + "."@ + extension_spec(archive_format_spec(os))
}

/// `<tool>-<version>`
pub open spec fn version_dir_spec(version: Seq<char>) -> Seq<char> {
    LS_EXECUTABLE_NAME@ + "-"@ + version
}

/// `<tool>-<version>/bin/<tool>`, with `.bat` on Windows.
pub open spec fn binary_path_spec(version: Seq<char>, os: Os) -> Seq<char> {
    let base = version_dir_spec(version) + "/bin/"@ + LS_EXECUTABLE_NAME@;
    if os == Os::Windows {
        base + ".bat"@
    } else {
        base
    }
}

/// The token that stands for `os` in asset names.
pub fn os_token(os: Os) -> (r: &'static str)
    ensures
        r@ == os_token_spec(os),
{
    match os {
        Os::Linux => "linux",
        Os::Mac => "macos",
        Os::Windows => "windows",
    }
}

/// The token that stands for `arch` in asset names; `None` for 32-bit x86.
pub fn arch_token(arch: Architecture) -> (r: Option<&'static str>)
    ensures
        r is None <==> !is_supported(arch),
        r matches Some(t) ==> t@ == arch_token_spec(arch),
{
    match arch {
        Architecture::Aarch64 => Some("aarch64"),
        Architecture::X8664 => Some("x64"),
        Architecture::X86 => None,
    }
}

/// The format in which releases for `os` are packed.
pub fn archive_format(os: Os) -> (r: ArchiveFormat)
    ensures
        r == archive_format_spec(os),
{
    match os {
        Os::Windows => ArchiveFormat::Zip,
        _ => ArchiveFormat::GzipTar,
    }
}

/// The file extension of an archive of `format`.
pub fn archive_extension(format: ArchiveFormat) -> (r: &'static str)
    ensures
        r@ == extension_spec(format),
{
    match format {
        ArchiveFormat::Zip => "zip",
        ArchiveFormat::GzipTar => "tar.gz",
    }
}

/// The asset that a release of `version` holds for the platform, or `None`
/// where the architecture has no release.
pub fn asset_name(version: &str, os: Os, arch: Architecture) -> (r: Option<String>)
    ensures
        r is None <==> !is_supported(arch),
        r matches Some(n) ==> n@ == asset_name_spec(version@, os, arch),
{
    match arch_token(arch) {
        None => None,
        Some(arch_str) => {
            let mut name = String::from_str(LS_EXECUTABLE_NAME);
            name.append("-");
            name.append(version);
            name.append("-");
            name.append(os_token(os));
            name.append("-");
            name.append(arch_str);
            name.append(".");
            name.append(archive_extension(archive_format(os)));
            Some(name)
        },
    }
}

/// The directory into which a release of `version` unpacks.
pub fn version_dir(version: &str) -> (r: String)
    ensures
        r@ == version_dir_spec(version@),
{
    let mut dir = String::from_str(LS_EXECUTABLE_NAME);
    dir.append("-");
    dir.append(version);
    dir
}

/// The path of the executable inside the unpacked release of `version`.
pub fn binary_path(version: &str, os: Os) -> (r: String)
    ensures
        r@ == binary_path_spec(version@, os),
{
    let mut path = version_dir(version);
    path.append("/bin/");
    path.append(LS_EXECUTABLE_NAME);
    if os == Os::Windows {
        path.append(".bat");
    }
    path
}

} // verus!
