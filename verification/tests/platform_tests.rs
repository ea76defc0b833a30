use zed_yii2_navigation::command::language_server_command;
use zed_yii2_navigation::platform::{
    arch_tag, archive_ext, archive_kind, asset_name, binary_path, os_tag, version_dir, Arch,
    ArchiveKind, Os,
};

#[test]
fn asset_name_covers_all_nine_combinations() {
    let cases = [
        (Os::Mac, Arch::Aarch64, "node-9.9.9-darwin-arm64.tar.gz"),
        (Os::Mac, Arch::X8664, "node-9.9.9-darwin-x64.tar.gz"),
        (Os::Mac, Arch::X86, "node-9.9.9-darwin-x86.tar.gz"),
        (Os::Linux, Arch::Aarch64, "node-9.9.9-linux-arm64.tar.xz"),
        (Os::Linux, Arch::X8664, "node-9.9.9-linux-x64.tar.xz"),
        (Os::Linux, Arch::X86, "node-9.9.9-linux-x86.tar.xz"),
        (Os::Windows, Arch::Aarch64, "node-9.9.9-win-arm64.zip"),
        (Os::Windows, Arch::X8664, "node-9.9.9-win-x64.zip"),
        (Os::Windows, Arch::X86, "node-9.9.9-win-x86.zip"),
    ];
    for (os, arch, expected) in cases {
        assert_eq!(asset_name("9.9.9", os, arch), *expected);
    }
}

#[test]
fn tags_and_extensions_match_the_fixed_mappings() {
    assert_eq!(os_tag(Os::Mac), "darwin");
    assert_eq!(os_tag(Os::Linux), "linux");
    assert_eq!(os_tag(Os::Windows), "win");
    assert_eq!(arch_tag(Arch::Aarch64), "arm64");
    assert_eq!(arch_tag(Arch::X8664), "x64");
    assert_eq!(arch_tag(Arch::X86), "x86");
    assert_eq!(archive_ext(Os::Mac), "tar.gz");
    assert_eq!(archive_ext(Os::Linux), "tar.xz");
    assert_eq!(archive_ext(Os::Windows), "zip");
    assert_eq!(archive_kind(Os::Mac), ArchiveKind::GzipTar);
    assert_eq!(archive_kind(Os::Linux), ArchiveKind::GzipTar);
    assert_eq!(archive_kind(Os::Windows), ArchiveKind::Zip);
}

#[test]
fn version_scoped_paths_follow_the_os_layout() {
    assert_eq!(version_dir("20.10.0"), "node-20.10.0");
    assert_eq!(binary_path("20.10.0", Os::Linux), "node-20.10.0/bin/node");
    assert_eq!(binary_path("20.10.0", Os::Mac), "node-20.10.0/bin/node");
    assert_eq!(binary_path("20.10.0", Os::Windows), "node-20.10.0/node.exe");
}

#[test]
fn language_server_command_is_fixed() {
    let c = language_server_command("node-20.10.0/bin/node".to_string(), "yii2-server.js".to_string());
    assert_eq!(c.command, "node-20.10.0/bin/node");
    assert_eq!(c.args, vec!["yii2-server.js".to_string(), "--stdio".to_string()]);
    assert!(c.env.is_empty());
}
