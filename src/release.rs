use vstd::prelude::*;
use crate::error::DownloadError;
use crate::platform::Platform;
use crate::text::{concat, str_eq};

verus! {

/// One downloadable file attached to a release.
#[derive(Debug, Clone, PartialEq, Eq)]
pub struct GitHubAsset {
    pub name: String,
    pub browser_download_url: String,
    pub size: u64,
}

/// A tagged, published set of assets.
#[derive(Debug, Clone, PartialEq, Eq)]
pub struct GitHubRelease {
    pub tag_name: String,
    pub name: Option<String>,
    pub assets: Vec<GitHubAsset>,
    pub published_at: String,
}

/// `i` is the first asset called `name`.
pub open spec fn is_first_asset(assets: Seq<GitHubAsset>, name: Seq<char>, i: int) -> bool {
    0 <= i < assets.len() && assets[i].name@ == name && forall|j: int|
        0 <= j < i ==> (#[trigger] assets[j]).name@ != name
}

pub open spec fn has_asset(assets: Seq<GitHubAsset>, name: Seq<char>) -> bool {
    exists|i: int| 0 <= i < assets.len() && (#[trigger] assets[i]).name@ == name
}

/// Where releases are looked up: a release host and a repository on it.
#[derive(Debug, Clone, PartialEq, Eq)]
pub struct ReleaseSource {
    pub host: String,
    pub owner: String,
    pub repo: String,
}

impl ReleaseSource {
    pub open spec fn repo_url_spec(&self) -> Seq<char> {
        self.host@ + "/repos/"@ + self.owner@ + "/"@ + self.repo@ + "/releases"@
    }

    /// A repository on the public GitHub API host.
    pub fn github(owner: &str, repo: &str) -> (r: ReleaseSource)
        ensures
            r.host@ == "https://api.github.com"@,
            r.owner@ == owner@,
            r.repo@ == repo@,
    {
        ReleaseSource {
            host: String::from_str("https://api.github.com"),
            owner: String::from_str(owner),
            repo: String::from_str(repo),
        }
    }

    /// `<host>/repos/<owner>/<repo>/releases`: every release, newest first.
    pub fn releases_url(&self) -> (r: String)
        ensures
            r@ == self.repo_url_spec(),
    {
        let mut s = concat(self.host.as_str(), "/repos/");
        s.append(self.owner.as_str());
        s.append("/");
        s.append(self.repo.as_str());
        s.append("/releases");
        s
    }

    /// `<host>/repos/<owner>/<repo>/releases/latest`: the latest release.
    pub fn latest_release_url(&self) -> (r: String)
        ensures
            r@ == self.repo_url_spec() + "/latest"@,
    {
        let mut s = self.releases_url();
        s.append("/latest");
        s
    }
}

/// Whether the release list must be consulted after the latest-release lookup
/// answered with HTTP `status`: exactly when that status is not a success
/// (2xx), as for a repository with only pre-releases.
pub fn needs_fallback(status: u16) -> (r: bool)
    ensures
        r == !(200 <= status < 300),
{
    status < 200 || status >= 300
}

/// Index of the first asset called `name`.
pub fn find_asset(assets: &Vec<GitHubAsset>, name: &str) -> (r: Option<usize>)
    ensures
        match r {
            Some(i) => is_first_asset(assets@, name@, i as int),
            None => !has_asset(assets@, name@),
        },
{
    let mut i: usize = 0;
    while i < assets.len()
        invariant
            i <= assets.len(),
            forall|j: int| 0 <= j < i ==> (#[trigger] assets@[j]).name@ != name@,
        decreases assets.len() - i,
    {
        if str_eq(assets[i].name.as_str(), name) {
            return Some(i);
        }
        i += 1;
    }
    None
}

/// The asset of `release` that holds `tool` for `platform`: the first one named
/// `platform.asset_name(tool)`, or `NoMatchingAsset`.
pub fn resolve_asset<'a>(release: &'a GitHubRelease, tool: &str, platform: &Platform) -> (r: Result<
    &'a GitHubAsset,
    DownloadError,
>)
    ensures
        r is Ok <==> has_asset(release.assets@, platform.asset_name_spec(tool@)),
        r matches Ok(a) ==> exists|i: int|
            is_first_asset(release.assets@, platform.asset_name_spec(tool@), i) && *a
                == release.assets@[i],
        r matches Err(e) ==> e is NoMatchingAsset,
{
    let name = platform.asset_name(tool);
    match find_asset(&release.assets, name.as_str()) {
        Some(i) => Ok(&release.assets[i]),
        None => Err(DownloadError::NoMatchingAsset),
    }
}

/// The most recent of a newest-first list of releases, or `NoReleases` when
/// the list is empty.
pub fn newest_release(releases: Vec<GitHubRelease>) -> (r: Result<GitHubRelease, DownloadError>)
    ensures
        r is Ok <==> releases@.len() > 0,
        r matches Ok(x) ==> x == releases@[0],
        r matches Err(e) ==> e is NoReleases,
{
    if releases.len() == 0 {
        Err(DownloadError::NoReleases)
    } else {
        let mut releases = releases;
        Ok(releases.swap_remove(0))
    }
}

} // verus!
