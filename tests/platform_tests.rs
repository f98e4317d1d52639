use saorsa_cli::error::DownloadError;
use saorsa_cli::platform::Platform;

#[test]
fn asset_names_follow_the_template() {
    let linux = Platform::from_tags("linux", "x86_64").unwrap();
    assert_eq!(linux.asset_name("tool"), "tool-linux-x86_64.tar.gz");
    assert_eq!(linux.binary_extension(), "");
    assert_eq!(linux.archive_extension(), ".tar.gz");
    assert_eq!(linux.executable_name("tool"), "tool");

    let windows = Platform::from_tags("windows", "x86_64").unwrap();
    assert_eq!(windows.asset_name("tool"), "tool-windows-x86_64.zip");
    assert_eq!(windows.binary_extension(), ".exe");
    assert_eq!(windows.archive_extension(), ".zip");
    assert_eq!(windows.executable_name("tool"), "tool.exe");
    assert_eq!(windows.binary_name("sb"), "sb-windows-x86_64.exe");

    let mac = Platform::from_tags("macos", "aarch64").unwrap();
    assert_eq!(mac.asset_name("sdisk"), "sdisk-macos-aarch64.tar.gz");
}

#[test]
fn asset_name_is_pure_and_ends_with_archive_extension() {
    for os in ["linux", "macos", "windows"] {
        for arch in ["x86_64", "aarch64"] {
            let p = Platform::from_tags(os, arch).unwrap();
            let q = Platform::from_tags(os, arch).unwrap();
            let a = p.asset_name("toolX");
            assert_eq!(a, q.asset_name("toolX"));
            assert!(a.ends_with(p.archive_extension()));
            let other = if p.archive_extension() == ".zip" { ".tar.gz" } else { ".zip" };
            assert!(!a.ends_with(other));
        }
    }
}

#[test]
fn unsupported_tags_are_refused() {
    assert!(matches!(
        Platform::from_tags("freebsd", "x86_64"),
        Err(DownloadError::UnsupportedPlatform(_))
    ));
    assert!(matches!(
        Platform::from_tags("linux", "riscv64"),
        Err(DownloadError::UnsupportedPlatform(_))
    ));
}

#[test]
fn darwin_host_reads_as_macos() {
    let p = Platform::from_host_tags("darwin", "aarch64").unwrap();
    assert_eq!(p.os, "macos");
    assert_eq!(p.arch, "aarch64");
    let l = Platform::from_host_tags("linux", "x86_64").unwrap();
    assert_eq!(l.os, "linux");
    assert!(Platform::from_host_tags("darwin", "powerpc").is_err());
}
