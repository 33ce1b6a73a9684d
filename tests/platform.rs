use ltex_plus::platform::{
    archive_extension, archive_format, arch_token, asset_name, binary_path, os_token, version_dir,
    ArchiveFormat, Architecture, Os, LS_EXECUTABLE_NAME, LS_REPO,
};

#[test]
fn asset_name_linux_aarch64() {
    assert_eq!(
        asset_name("18.2.0", Os::Linux, Architecture::Aarch64).unwrap(),
        "ltex-ls-plus-18.2.0-linux-aarch64.tar.gz"
    );
}

#[test]
fn asset_name_windows_x64() {
    assert_eq!(
        asset_name("18.2.0", Os::Windows, Architecture::X8664).unwrap(),
        "ltex-ls-plus-18.2.0-windows-x64.zip"
    );
}

#[test]
fn asset_name_every_supported_platform() {
    let cases = [
        (Os::Linux, Architecture::X8664, "ltex-ls-plus-1.0.0-linux-x64.tar.gz"),
        (Os::Mac, Architecture::Aarch64, "ltex-ls-plus-1.0.0-macos-aarch64.tar.gz"),
        (Os::Mac, Architecture::X8664, "ltex-ls-plus-1.0.0-macos-x64.tar.gz"),
        (Os::Windows, Architecture::Aarch64, "ltex-ls-plus-1.0.0-windows-aarch64.zip"),
    ];
    for (os, arch, expected) in cases {
        assert_eq!(asset_name("1.0.0", os, arch).unwrap(), expected);
    }
}

#[test]
fn asset_name_x86_has_none() {
    assert!(asset_name("18.2.0", Os::Linux, Architecture::X86).is_none());
    assert!(asset_name("18.2.0", Os::Windows, Architecture::X86).is_none());
    assert!(asset_name("18.2.0", Os::Mac, Architecture::X86).is_none());
}

#[test]
fn binary_path_linux() {
    assert_eq!(binary_path("18.2.0", Os::Linux), "ltex-ls-plus-18.2.0/bin/ltex-ls-plus");
    assert_eq!(binary_path("18.2.0", Os::Mac), "ltex-ls-plus-18.2.0/bin/ltex-ls-plus");
}

#[test]
fn binary_path_windows() {
    assert_eq!(binary_path("18.2.0", Os::Windows), "ltex-ls-plus-18.2.0/bin/ltex-ls-plus.bat");
}

#[test]
fn version_dir_names_version() {
    assert_eq!(version_dir("18.2.0"), "ltex-ls-plus-18.2.0");
    assert_eq!(version_dir(""), "ltex-ls-plus-");
}

#[test]
fn tokens_and_formats() {
    assert_eq!(os_token(Os::Linux), "linux");
    assert_eq!(os_token(Os::Mac), "macos");
    assert_eq!(os_token(Os::Windows), "windows");
    assert_eq!(arch_token(Architecture::Aarch64), Some("aarch64"));
    assert_eq!(arch_token(Architecture::X8664), Some("x64"));
    assert_eq!(arch_token(Architecture::X86), None);
    assert_eq!(archive_format(Os::Windows), ArchiveFormat::Zip);
    assert_eq!(archive_format(Os::Linux), ArchiveFormat::GzipTar);
    assert_eq!(archive_format(Os::Mac), ArchiveFormat::GzipTar);
    assert_eq!(archive_extension(ArchiveFormat::Zip), "zip");
    assert_eq!(archive_extension(ArchiveFormat::GzipTar), "tar.gz");
}

#[test]
fn names_of_tool_and_repo() {
    assert_eq!(LS_EXECUTABLE_NAME, "ltex-ls-plus");
    assert_eq!(LS_REPO, "ltex-plus/ltex-ls-plus");
}
