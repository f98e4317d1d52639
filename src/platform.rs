use vstd::prelude::*;
use crate::archive::ArchiveFormat;
use crate::error::DownloadError;
use crate::text::{concat, str_eq};

verus! {

/// Operating systems for which release assets are published.
pub open spec fn supported_os(os: Seq<char>) -> bool {
    os == "linux"@ || os == "macos"@ || os == "windows"@
}

/// Architectures for which release assets are published.
pub open spec fn supported_arch(arch: Seq<char>) -> bool {
    arch == "x86_64"@ || arch == "aarch64"@
}

/// The operating system tag under which assets are published, for a host tag:
/// the Darwin kernel name stands for macOS.
pub open spec fn os_tag_of(host_os: Seq<char>) -> Seq<char> {
    if host_os == "darwin"@ || host_os == "macosx"@ {
        "macos"@
    } else {
        host_os
    }
}

/// Relies on target_lexicon::HOST: the operating system of the build's host,
/// as `OperatingSystem::into_str` spells it.
#[verifier::external_body]
fn host_os_name() -> (r: String) {
    target_lexicon::HOST.operating_system.into_str().into_owned()
}

/// Relies on target_lexicon::HOST: the architecture of the build's host,
/// as `Architecture::into_str` spells it.
#[verifier::external_body]
fn host_arch_name() -> (r: String) {
    target_lexicon::HOST.architecture.into_str().into_owned()
}

/// The operating system and architecture this process runs on, and the
/// naming conventions derived from them.
#[derive(Debug, Clone, PartialEq, Eq)]
pub struct Platform {
    pub os: String,
    pub arch: String,
}

impl Platform {
    /// Both tags name a combination for which assets are published.
    pub open spec fn wf(&self) -> bool {
        supported_os(self.os@) && supported_arch(self.arch@)
    }

    pub open spec fn windows(&self) -> bool {
        self.os@ == "windows"@
    }

    pub open spec fn binary_extension_spec(&self) -> Seq<char> {
        if self.windows() {
            ".exe"@
        } else {
            ""@
        }
    }

    pub open spec fn archive_extension_spec(&self) -> Seq<char> {
        if self.windows() {
            ".zip"@
        } else {
            ".tar.gz"@
        }
    }

    pub open spec fn archive_format_spec(&self) -> ArchiveFormat {
        if self.windows() {
            ArchiveFormat::Zip
        } else {
            ArchiveFormat::TarGz
        }
    }

    /// `<tool>-<os>-<arch><archive extension>`.
    pub open spec fn asset_name_spec(&self, tool: Seq<char>) -> Seq<char> {
        tool + "-"@ + self.os@ + "-"@ + self.arch@ + self.archive_extension_spec()
    }

    /// `<tool>-<os>-<arch><binary extension>`.
    pub open spec fn binary_name_spec(&self, tool: Seq<char>) -> Seq<char> {
        tool + "-"@ + self.os@ + "-"@ + self.arch@ + self.binary_extension_spec()
    }

    /// `<tool><binary extension>`: the name of the installed binary.
    pub open spec fn executable_name_spec(&self, tool: Seq<char>) -> Seq<char> {
        tool + self.binary_extension_spec()
    }

    /// A platform from its tags; fails with `UnsupportedPlatform` unless both
    /// are in the supported set.
    pub fn from_tags(os: &str, arch: &str) -> (r: Result<Platform, DownloadError>)
        ensures
            r is Ok <==> supported_os(os@) && supported_arch(arch@),
            r matches Ok(p) ==> p.os@ == os@ && p.arch@ == arch@ && p.wf(),
            r matches Err(e) ==> e is UnsupportedPlatform,
    {
        let os_ok = str_eq(os, "linux") || str_eq(os, "macos") || str_eq(os, "windows");
        let arch_ok = str_eq(arch, "x86_64") || str_eq(arch, "aarch64");
        if os_ok && arch_ok {
            Ok(Platform { os: String::from_str(os), arch: String::from_str(arch) })
        } else {
            Err(DownloadError::UnsupportedPlatform(concat(&concat(os, "-"), arch)))
        }
    }

    /// The platform from the host's tags, the Darwin kernel name read as macOS.
    pub fn from_host_tags(host_os: &str, host_arch: &str) -> (r: Result<Platform, DownloadError>)
        ensures
            r is Ok <==> supported_os(os_tag_of(host_os@)) && supported_arch(host_arch@),
            r matches Ok(p) ==> p.os@ == os_tag_of(host_os@) && p.arch@ == host_arch@ && p.wf(),
            r matches Err(e) ==> e is UnsupportedPlatform,
    {
        if str_eq(host_os, "darwin") || str_eq(host_os, "macosx") {
            Platform::from_tags("macos", host_arch)
        } else {
            Platform::from_tags(host_os, host_arch)
        }
    }

    /// The platform this process runs on.
    pub fn detect() -> (r: Result<Platform, DownloadError>)
        ensures
            r matches Ok(p) ==> p.wf(),
            r matches Err(e) ==> e is UnsupportedPlatform,
    {
        let os = host_os_name();
        let arch = host_arch_name();
        Platform::from_host_tags(os.as_str(), arch.as_str())
    }

    pub fn is_windows(&self) -> (r: bool)
        ensures
            r == self.windows(),
    {
        str_eq(self.os.as_str(), "windows")
    }

    /// The suffix of an executable file: `.exe` on Windows, empty elsewhere.
    pub fn binary_extension(&self) -> (r: &'static str)
        ensures
            r@ == self.binary_extension_spec(),
    {
        if self.is_windows() {
            ".exe"
        } else {
            ""
        }
    }

    /// The suffix of a release archive: `.zip` on Windows, `.tar.gz` elsewhere.
    pub fn archive_extension(&self) -> (r: &'static str)
        ensures
            r@ == self.archive_extension_spec(),
    {
        if self.is_windows() {
            ".zip"
        } else {
            ".tar.gz"
        }
    }

    /// The format of this platform's release archives.
    pub fn archive_format(&self) -> (r: ArchiveFormat)
        ensures
            r == self.archive_format_spec(),
    {
        if self.is_windows() {
            ArchiveFormat::Zip
        } else {
            ArchiveFormat::TarGz
        }
    }

    fn tagged(&self, tool: &str, suffix: &str) -> (r: String)
        ensures
            r@ == tool@ + "-"@ + self.os@ + "-"@ + self.arch@ + suffix@,
    {
        let mut s = concat(tool, "-");
        s.append(self.os.as_str());
        s.append("-");
        s.append(self.arch.as_str());
        s.append(suffix);
        s
    }

    /// The name of the release asset that holds `tool` for this platform.
    pub fn asset_name(&self, tool: &str) -> (r: String)
        ensures
            r@ == self.asset_name_spec(tool@),
    {
        self.tagged(tool, self.archive_extension())
    }

    /// The platform-qualified name of the executable of `tool`.
    pub fn binary_name(&self, tool: &str) -> (r: String)
        ensures
            r@ == self.binary_name_spec(tool@),
    {
        self.tagged(tool, self.binary_extension())
    }

    /// The file name under which `tool` is installed.
    pub fn executable_name(&self, tool: &str) -> (r: String)
        ensures
            r@ == self.executable_name_spec(tool@),
    {
        concat(tool, self.binary_extension())
    }
}

/// The asset name is determined by the tool name and the platform's tags alone,
/// and always ends with exactly the platform's archive extension.
pub proof fn lemma_asset_name_ends_with_archive_extension(p: Platform, q: Platform, tool: Seq<char>)
    requires
        p.wf(),
        p.os@ == q.os@,
        p.arch@ == q.arch@,
    ensures
        p.asset_name_spec(tool) == q.asset_name_spec(tool),
        ({
            let n = p.asset_name_spec(tool);
            let e = p.archive_extension_spec();
            n.len() >= e.len() && n.subrange(n.len() - e.len(), n.len() as int) == e
        }),
{
    let n = p.asset_name_spec(tool);
    let e = p.archive_extension_spec();
    let prefix = tool + "-"@ + p.os@ + "-"@ + p.arch@;
    assert(n == prefix + e);
    assert(n.subrange(prefix.len() as int, n.len() as int) =~= e);
}

} // verus!
