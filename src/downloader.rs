use vstd::prelude::*;
use crate::archive::{extract_member, extracted, ArchiveFormat};
use crate::checksum::{digest_hex_of, verify};
use crate::error::DownloadError;
use crate::platform::Platform;
use crate::release::{find_asset, has_asset, is_first_asset, GitHubRelease, ReleaseSource};
use crate::text::{concat, eq_ignore_case};

verus! {

/// `name` inside the directory `root`, with one `/` between them unless
/// `root` is empty or already ends with `/`.
pub open spec fn join_path(root: Seq<char>, name: Seq<char>) -> Seq<char> {
    if root.len() == 0 || root.last() == '/' {
        root + name
    } else {
        root + "/"@ + name
    }
}

/// `<root>/<tool><binary extension>`: where a tool is installed.
pub open spec fn binary_path_spec(root: Seq<char>, tool: Seq<char>, p: Platform) -> Seq<char> {
    join_path(root, p.executable_name_spec(tool))
}

/// `<root>/<asset>.<nonce>.part`: where an archive is downloaded to.
pub open spec fn archive_path_spec(root: Seq<char>, asset: Seq<char>, nonce: Seq<char>) -> Seq<
    char,
> {
    join_path(root, asset + "."@ + nonce + ".part"@)
}

/// `<root>/<tool><binary extension>.<nonce>.tmp`: where an extracted binary is
/// written before it is renamed into place.
pub open spec fn staging_path_spec(
    root: Seq<char>,
    tool: Seq<char>,
    p: Platform,
    nonce: Seq<char>,
) -> Seq<char> {
    join_path(root, p.executable_name_spec(tool) + "."@ + nonce + ".tmp"@)
}

pub open spec fn paths_view(v: Seq<String>) -> Seq<Seq<char>> {
    v.map_values(|s: String| s@)
}

/// `name` inside the directory `root`.
pub fn join(root: &str, name: &str) -> (r: String)
    ensures
        r@ == join_path(root@, name@),
{
    let n = root.unicode_len();
    if n == 0 {
        return String::from_str(name);
    }
    if root.get_char(n - 1) == '/' {
        concat(root, name)
    } else {
        let mut s = concat(root, "/");
        s.append(name);
        s
    }
}

/// Where in an acquisition the work stands.
#[derive(Debug, Clone, Copy, PartialEq, Eq, Structural)]
pub enum Stage {
    /// Waiting for the latest release.
    Resolving,
    /// Waiting for the asset's bytes.
    Downloading,
    /// Waiting for the extracted binary to be written to its staging file.
    Staging,
    /// Waiting for the staging file to be renamed into place.
    Installing,
    /// Finished, with success or failure.
    Done,
}

/// What the caller reports back after performing an action.
pub enum Event {
    /// The latest release, or why it could not be had.
    ReleaseFetched(Result<GitHubRelease, DownloadError>),
    /// The complete bytes of the downloaded archive, or why the download failed.
    Downloaded(Result<Vec<u8>, DownloadError>),
    /// Whether the staging file was written.
    Staged(Result<(), DownloadError>),
    /// Whether the staging file was renamed into place.
    Installed(Result<(), DownloadError>),
}

/// What the caller is to do next.
pub enum Action {
    /// Look up the latest release, falling back to the newest listed one.
    FetchRelease,
    /// Stream `url` into `archive_path`, reporting progress against
    /// `declared_size` when the server gives no length.
    Download { url: String, archive_path: String, declared_size: u64 },
    /// Remove `archive_path`, then create (or truncate) `staging_path` and
    /// write `contents` to it.
    Stage { archive_path: String, staging_path: String, contents: Vec<u8> },
    /// Make `staging_path` executable if asked (mode 0755), then rename it to
    /// `final_path`: the only step that touches the installed binary.
    Install { staging_path: String, final_path: String, executable: bool },
    /// Remove each of `cleanup` (best effort), then hand back `result`.
    Finish { result: Result<String, DownloadError>, cleanup: Vec<String> },
}

pub open spec fn finishes_with_error(a: Action, e: DownloadError, cleanup: Seq<Seq<char>>) -> bool {
    a matches Action::Finish { result: Err(x), cleanup: c } && x == e && paths_view(c@) == cleanup
}

pub open spec fn finishes_with_path(a: Action, path: Seq<char>) -> bool {
    a matches Action::Finish { result: Ok(p), cleanup: c } && p@ == path && c@.len() == 0
}

pub open spec fn downloads(a: Action, url: Seq<char>, path: Seq<char>, size: u64) -> bool {
    a matches Action::Download { url: u, archive_path: p, declared_size: n } && u@ == url && p@
        == path && n == size
}

pub open spec fn installs(a: Action, staging: Seq<char>, target: Seq<char>, executable: bool) -> bool {
    a matches Action::Install { staging_path: s, final_path: f, executable: x } && s@ == staging
        && f@ == target && x == executable
}

/// The digest supplied does not match the data.
pub open spec fn digest_rejected(expected: Option<String>, data: Seq<u8>) -> bool {
    match expected {
        Some(h) => !eq_ignore_case(digest_hex_of(data), h@),
        None => false,
    }
}

/// On the latest release: download the first asset with the wanted name, or
/// fail with `NoMatchingAsset`; a lookup failure is handed on.
pub open spec fn release_outcome(
    s: Acquisition,
    fetched: Result<GitHubRelease, DownloadError>,
    next: Stage,
    r: Action,
) -> bool {
    match fetched {
        Err(e) => next == Stage::Done && finishes_with_error(r, e, seq![]),
        Ok(rel) => if has_asset(rel.assets@, s.asset_name@) {
            exists|i: int|
                #![auto]
                is_first_asset(rel.assets@, s.asset_name@, i) && next == Stage::Downloading
                    && downloads(
                    r,
                    rel.assets@[i].browser_download_url@,
                    s.archive_path@,
                    rel.assets@[i].size,
                )
        } else {
            next == Stage::Done && finishes_with_error(r, DownloadError::NoMatchingAsset, seq![])
        },
    }
}

/// On the downloaded bytes: a supplied digest that does not match fails with
/// `ChecksumMismatch`; otherwise the tool is extracted and staged, or the
/// extraction failure is handed on. The archive is removed on every failure.
pub open spec fn download_outcome(
    s: Acquisition,
    got: Result<Vec<u8>, DownloadError>,
    next: Stage,
    r: Action,
) -> bool {
    match got {
        Err(e) => next == Stage::Done && finishes_with_error(r, e, seq![s.archive_path@]),
        Ok(data) => if digest_rejected(s.expected_digest, data@) {
            next == Stage::Done && finishes_with_error(
                r,
                DownloadError::ChecksumMismatch,
                seq![s.archive_path@],
            )
        } else {
            match r {
                Action::Stage { archive_path, staging_path, contents } => next == Stage::Staging
                    && archive_path@ == s.archive_path@ && staging_path@ == s.staging_path@
                    && extracted(
                    s.format,
                    data@,
                    s.tool@,
                    s.suffix@,
                    Ok::<Vec<u8>, DownloadError>(contents),
                ),
                Action::Finish { result: Err(e), cleanup } => next == Stage::Done && extracted(
                    s.format,
                    data@,
                    s.tool@,
                    s.suffix@,
                    Err::<Vec<u8>, DownloadError>(e),
                ) && paths_view(cleanup@) == seq![s.archive_path@],
                _ => false,
            }
        },
    }
}

/// On the staging write: install by rename, or fail and remove both
/// temporary files.
pub open spec fn staged_outcome(
    s: Acquisition,
    res: Result<(), DownloadError>,
    next: Stage,
    r: Action,
) -> bool {
    match res {
        Err(e) => next == Stage::Done && finishes_with_error(
            r,
            e,
            seq![s.archive_path@, s.staging_path@],
        ),
        Ok(_) => next == Stage::Installing && installs(
            r,
            s.staging_path@,
            s.final_path@,
            s.executable,
        ),
    }
}

/// On the rename: hand back the installed path, or fail and remove the
/// staging file.
pub open spec fn installed_outcome(
    s: Acquisition,
    res: Result<(), DownloadError>,
    next: Stage,
    r: Action,
) -> bool {
    match res {
        Err(e) => next == Stage::Done && finishes_with_error(r, e, seq![s.staging_path@]),
        Ok(_) => next == Stage::Done && finishes_with_path(r, s.final_path@),
    }
}

/// One step of an acquisition.
pub open spec fn transition(s: Acquisition, event: Event, next: Stage, r: Action) -> bool {
    match event {
        Event::ReleaseFetched(x) => release_outcome(s, x, next, r),
        Event::Downloaded(x) => download_outcome(s, x, next, r),
        Event::Staged(x) => staged_outcome(s, x, next, r),
        Event::Installed(x) => installed_outcome(s, x, next, r),
    }
}

/// Whether the action reaches the network.
pub open spec fn uses_network(a: Action) -> bool {
    a is FetchRelease || a is Download
}

/// One request to make a tool available in the cache.
pub struct Acquisition {
    pub tool: String,
    /// The asset that holds the tool for the platform.
    pub asset_name: String,
    /// The platform's binary suffix, also accepted on a zip member's name.
    pub suffix: String,
    pub format: ArchiveFormat,
    /// Whether the installed file gets mode 0755.
    pub executable: bool,
    /// The digest the archive must hash to, if one was supplied.
    pub expected_digest: Option<String>,
    pub final_path: String,
    pub staging_path: String,
    pub archive_path: String,
    pub stage: Stage,
}

impl Acquisition {
    /// The events each stage waits for.
    pub open spec fn accepts_spec(&self, event: Event) -> bool {
        match event {
            Event::ReleaseFetched(_) => self.stage == Stage::Resolving,
            Event::Downloaded(_) => self.stage == Stage::Downloading,
            Event::Staged(_) => self.stage == Stage::Staging,
            Event::Installed(_) => self.stage == Stage::Installing,
        }
    }

    pub fn accepts(&self, event: &Event) -> (r: bool)
        ensures
            r == self.accepts_spec(*event),
    {
        match event {
            Event::ReleaseFetched(_) => self.stage == Stage::Resolving,
            Event::Downloaded(_) => self.stage == Stage::Downloading,
            Event::Staged(_) => self.stage == Stage::Staging,
            Event::Installed(_) => self.stage == Stage::Installing,
        }
    }

    /// The acquisition fields that no event changes.
    pub open spec fn same_request(&self, other: &Acquisition) -> bool {
        &&& self.tool@ == other.tool@
        &&& self.asset_name@ == other.asset_name@
        &&& self.suffix@ == other.suffix@
        &&& self.format == other.format
        &&& self.executable == other.executable
        &&& self.expected_digest == other.expected_digest
        &&& self.final_path@ == other.final_path@
        &&& self.staging_path@ == other.staging_path@
        &&& self.archive_path@ == other.archive_path@
    }

    fn finish_error(&mut self, e: DownloadError, cleanup: Vec<String>) -> (r: Action)
        ensures
            final(self).stage == Stage::Done,
            final(self).same_request(old(self)),
            finishes_with_error(r, e, paths_view(cleanup@)),
    {
        self.stage = Stage::Done;
        Action::Finish { result: Err(e), cleanup }
    }

    fn on_release(&mut self, fetched: Result<GitHubRelease, DownloadError>) -> (r: Action)
        requires
            old(self).stage == Stage::Resolving,
        ensures
            final(self).same_request(old(self)),
            release_outcome(*old(self), fetched, final(self).stage, r),
    {
        match fetched {
            Err(e) => {
                let r = self.finish_error(e, Vec::new());
                assert(paths_view(Seq::<String>::empty()) =~= seq![]);
                r
            },
            Ok(release) => {
                let ghost assets = release.assets@;
                match find_asset(&release.assets, self.asset_name.as_str()) {
                    Some(k) => {
                        self.stage = Stage::Downloading;
                        let a = &release.assets[k];
                        Action::Download {
                            url: String::from_str(a.browser_download_url.as_str()),
                            archive_path: String::from_str(self.archive_path.as_str()),
                            declared_size: a.size,
                        }
                    },
                    None => {
                        let r = self.finish_error(DownloadError::NoMatchingAsset, Vec::new());
                        assert(paths_view(Seq::<String>::empty()) =~= seq![]);
                        r
                    },
                }
            },
        }
    }

    fn one_path(p: &String) -> (r: Vec<String>)
        ensures
            paths_view(r@) == seq![p@],
    {
        let mut v = Vec::new();
        v.push(String::from_str(p.as_str()));
        assert(paths_view(v@) =~= seq![p@]);
        v
    }

    fn on_download(&mut self, got: Result<Vec<u8>, DownloadError>) -> (r: Action)
        requires
            old(self).stage == Stage::Downloading,
        ensures
            final(self).same_request(old(self)),
            download_outcome(*old(self), got, final(self).stage, r),
    {
        match got {
            Err(e) => {
                let c = Self::one_path(&self.archive_path);
                self.finish_error(e, c)
            },
            Ok(data) => {
                let rejected = match &self.expected_digest {
                    Some(h) => !verify(data.as_slice(), h.as_str()),
                    None => false,
                };
                if rejected {
                    let c = Self::one_path(&self.archive_path);
                    return self.finish_error(DownloadError::ChecksumMismatch, c);
                }
                match extract_member(
                    data.as_slice(),
                    self.format,
                    self.tool.as_str(),
                    self.suffix.as_str(),
                ) {
                    Ok(contents) => {
                        self.stage = Stage::Staging;
                        Action::Stage {
                            archive_path: String::from_str(self.archive_path.as_str()),
                            staging_path: String::from_str(self.staging_path.as_str()),
                            contents,
                        }
                    },
                    Err(e) => {
                        let c = Self::one_path(&self.archive_path);
                        self.finish_error(e, c)
                    },
                }
            },
        }
    }

    fn on_staged(&mut self, res: Result<(), DownloadError>) -> (r: Action)
        requires
            old(self).stage == Stage::Staging,
        ensures
            final(self).same_request(old(self)),
            staged_outcome(*old(self), res, final(self).stage, r),
    {
        match res {
            Err(e) => {
                let mut c = Vec::new();
                c.push(String::from_str(self.archive_path.as_str()));
                c.push(String::from_str(self.staging_path.as_str()));
                assert(c@[0]@ == self.archive_path@);
                assert(paths_view(c@) =~= seq![self.archive_path@, self.staging_path@]);
                self.finish_error(e, c)
            },
            Ok(_) => {
                self.stage = Stage::Installing;
                Action::Install {
                    staging_path: String::from_str(self.staging_path.as_str()),
                    final_path: String::from_str(self.final_path.as_str()),
                    executable: self.executable,
                }
            },
        }
    }

    fn on_installed(&mut self, res: Result<(), DownloadError>) -> (r: Action)
        requires
            old(self).stage == Stage::Installing,
        ensures
            final(self).same_request(old(self)),
            installed_outcome(*old(self), res, final(self).stage, r),
    {
        match res {
            Err(e) => {
                let c = Self::one_path(&self.staging_path);
                self.finish_error(e, c)
            },
            Ok(_) => {
                self.stage = Stage::Done;
                let r = Action::Finish {
                    result: Ok(String::from_str(self.final_path.as_str())),
                    cleanup: Vec::new(),
                };
                r
            },
        }
    }

    /// Advances the acquisition by the outcome of the last action and returns
    /// the next one.
    pub fn step(&mut self, event: Event) -> (r: Action)
        requires
            old(self).accepts_spec(event),
        ensures
            final(self).same_request(old(self)),
            transition(*old(self), event, final(self).stage, r),
    {
        match event {
            Event::ReleaseFetched(x) => self.on_release(x),
            Event::Downloaded(x) => self.on_download(x),
            Event::Staged(x) => self.on_staged(x),
            Event::Installed(x) => self.on_installed(x),
        }
    }
}

/// Installs tools from the releases of one repository into a cache directory.
pub struct Downloader {
    pub source: ReleaseSource,
    pub cache_dir: String,
}

/// How an acquisition begins: a tool already in the cache is handed back at
/// once unless a refresh is forced; otherwise the latest release is looked up.
pub open spec fn begin_outcome(
    d: Downloader,
    tool: Seq<char>,
    p: Platform,
    force: bool,
    cached: bool,
    expected: Option<String>,
    nonce: Seq<char>,
    a: Acquisition,
    act: Action,
) -> bool {
    let root = d.cache_dir@;
    &&& a.tool@ == tool
    &&& a.asset_name@ == p.asset_name_spec(tool)
    &&& a.suffix@ == p.binary_extension_spec()
    &&& a.format == p.archive_format_spec()
    &&& a.executable == !p.windows()
    &&& a.expected_digest == expected
    &&& a.final_path@ == binary_path_spec(root, tool, p)
    &&& a.staging_path@ == staging_path_spec(root, tool, p, nonce)
    &&& a.archive_path@ == archive_path_spec(root, p.asset_name_spec(tool), nonce)
    &&& if cached && !force {
        a.stage == Stage::Done && finishes_with_path(act, a.final_path@)
    } else {
        a.stage == Stage::Resolving && act is FetchRelease
    }
}

impl Downloader {
    /// A downloader for `<repo_owner>/<repo_name>` on GitHub that installs
    /// into `cache_dir`.
    pub fn new(repo_owner: String, repo_name: String, cache_dir: String) -> (r: Downloader)
        ensures
            r.source.host@ == "https://api.github.com"@,
            r.source.owner@ == repo_owner@,
            r.source.repo@ == repo_name@,
            r.cache_dir@ == cache_dir@,
    {
        Downloader {
            source: ReleaseSource::github(repo_owner.as_str(), repo_name.as_str()),
            cache_dir,
        }
    }

    /// Where `binary_name` is installed for `platform`.
    pub fn binary_path(&self, binary_name: &str, platform: &Platform) -> (r: String)
        ensures
            r@ == binary_path_spec(self.cache_dir@, binary_name@, *platform),
    {
        join(self.cache_dir.as_str(), platform.executable_name(binary_name).as_str())
    }

    /// Where an archive is downloaded to by the acquisition tagged `nonce`.
    pub fn archive_path(&self, asset_name: &str, nonce: &str) -> (r: String)
        ensures
            r@ == archive_path_spec(self.cache_dir@, asset_name@, nonce@),
    {
        let mut name = concat(asset_name, ".");
        name.append(nonce);
        name.append(".part");
        join(self.cache_dir.as_str(), name.as_str())
    }

    /// Where the acquisition tagged `nonce` writes the binary before renaming it.
    pub fn staging_path(&self, binary_name: &str, platform: &Platform, nonce: &str) -> (r: String)
        ensures
            r@ == staging_path_spec(self.cache_dir@, binary_name@, *platform, nonce@),
    {
        let mut name = platform.executable_name(binary_name);
        name.append(".");
        name.append(nonce);
        name.append(".tmp");
        join(self.cache_dir.as_str(), name.as_str())
    }

    /// Begins making `tool` available. `cached` says whether its installed
    /// path holds a file; `nonce` must differ between acquisitions that may
    /// run at once, so that their temporary files differ.
    pub fn begin(
        &self,
        tool: &str,
        platform: &Platform,
        force: bool,
        cached: bool,
        expected_digest: Option<String>,
        nonce: &str,
    ) -> (r: (Acquisition, Action))
        ensures
            begin_outcome(*self, tool@, *platform, force, cached, expected_digest, nonce@, r.0, r.1),
    {
        let asset_name = platform.asset_name(tool);
        let archive_path = self.archive_path(asset_name.as_str(), nonce);
        let a = Acquisition {
            tool: String::from_str(tool),
            asset_name,
            suffix: String::from_str(platform.binary_extension()),
            format: platform.archive_format(),
            executable: !platform.is_windows(),
            expected_digest,
            final_path: self.binary_path(tool, platform),
            staging_path: self.staging_path(tool, platform, nonce),
            archive_path,
            stage: if cached && !force {
                Stage::Done
            } else {
                Stage::Resolving
            },
        };
        if cached && !force {
            let act = Action::Finish {
                result: Ok(String::from_str(a.final_path.as_str())),
                cleanup: Vec::new(),
            };
            (a, act)
        } else {
            (a, Action::FetchRelease)
        }
    }

    /// Whether downloaded bytes hash to `expected` (hexadecimal, any case).
    pub fn verify_checksum(&self, data: &[u8], expected: &str) -> (r: bool)
        ensures
            r == eq_ignore_case(digest_hex_of(data@), expected@),
    {
        verify(data, expected)
    }
}

/// With the tool in the cache and no forced refresh, every acquisition of it
/// hands back the same installed path without reaching the network.
pub proof fn lemma_cache_hit_is_offline(
    d: Downloader,
    tool: Seq<char>,
    p: Platform,
    expected1: Option<String>,
    nonce1: Seq<char>,
    a1: Acquisition,
    act1: Action,
    expected2: Option<String>,
    nonce2: Seq<char>,
    a2: Acquisition,
    act2: Action,
)
    requires
        begin_outcome(d, tool, p, false, true, expected1, nonce1, a1, act1),
        begin_outcome(d, tool, p, false, true, expected2, nonce2, a2, act2),
    ensures
        !uses_network(act1),
        !uses_network(act2),
        finishes_with_path(act1, binary_path_spec(d.cache_dir@, tool, p)),
        finishes_with_path(act2, binary_path_spec(d.cache_dir@, tool, p)),
        a1.stage == Stage::Done && a2.stage == Stage::Done,
{
}

/// A finished acquisition takes no further event, so nothing more is installed.
pub proof fn lemma_done_is_final(a: Acquisition, event: Event)
    requires
        a.stage == Stage::Done,
    ensures
        !a.accepts_spec(event),
{
}

/// Bytes that do not hash to the supplied digest end the acquisition with
/// `ChecksumMismatch`: the archive is removed and nothing is staged or installed.
pub proof fn lemma_checksum_mismatch_installs_nothing(
    s: Acquisition,
    data: Vec<u8>,
    next: Stage,
    r: Action,
)
    requires
        s.stage == Stage::Downloading,
        s.expected_digest matches Some(h) && !eq_ignore_case(digest_hex_of(data@), h@),
        transition(s, Event::Downloaded(Ok(data)), next, r),
    ensures
        next == Stage::Done,
        finishes_with_error(r, DownloadError::ChecksumMismatch, seq![s.archive_path@]),
        !(r is Stage),
        !(r is Install),
{
}

proof fn lemma_join_injective(root: Seq<char>, x: Seq<char>, y: Seq<char>)
    requires
        join_path(root, x) == join_path(root, y),
    ensures
        x == y,
{
    let jx = join_path(root, x);
    let k = jx.len() - x.len();
    assert(x =~= jx.subrange(k, jx.len() as int));
    assert(y =~= join_path(root, y).subrange(k, jx.len() as int));
}

proof fn lemma_join_longer(root: Seq<char>, x: Seq<char>, y: Seq<char>)
    requires
        x.len() < y.len(),
    ensures
        join_path(root, x) != join_path(root, y),
{
    assert(join_path(root, x).len() < join_path(root, y).len());
}

proof fn lemma_tag_injective(base: Seq<char>, n1: Seq<char>, n2: Seq<char>, suffix: Seq<char>)
    requires
        base + "."@ + n1 + suffix == base + "."@ + n2 + suffix,
    ensures
        n1 == n2,
{
    let x = base + "."@ + n1 + suffix;
    let y = base + "."@ + n2 + suffix;
    let k = base.len() as int + "."@.len();
    assert(x.len() == y.len());
    assert(n1.len() == n2.len());
    assert(n1 =~= x.subrange(k, k + n1.len()));
    assert(n2 =~= y.subrange(k, k + n2.len()));
    assert(n1 =~= n2);
}

proof fn lemma_asset_name_longer(p: Platform, tool: Seq<char>)
    ensures
        p.executable_name_spec(tool).len() < p.asset_name_spec(tool).len(),
{
    reveal_strlit("-");
    reveal_strlit(".zip");
    reveal_strlit(".tar.gz");
    reveal_strlit(".exe");
    reveal_strlit("");
}

/// Neither temporary file of an acquisition is the installed path.
pub proof fn lemma_temporary_paths_not_installed(
    root: Seq<char>,
    tool: Seq<char>,
    p: Platform,
    nonce: Seq<char>,
)
    ensures
        staging_path_spec(root, tool, p, nonce) != binary_path_spec(root, tool, p),
        archive_path_spec(root, p.asset_name_spec(tool), nonce) != binary_path_spec(root, tool, p),
{
    let e = p.executable_name_spec(tool);
    reveal_strlit(".");
    lemma_join_longer(root, e, e + "."@ + nonce + ".tmp"@);
    lemma_asset_name_longer(p, tool);
    lemma_join_longer(root, e, p.asset_name_spec(tool) + "."@ + nonce + ".part"@);
}

/// Two acquisitions of one tool with different nonces write to different
/// temporary files, so concurrent refreshes never write the same file.
pub proof fn lemma_temporary_paths_distinct(
    root: Seq<char>,
    tool: Seq<char>,
    p: Platform,
    nonce1: Seq<char>,
    nonce2: Seq<char>,
)
    requires
        nonce1 != nonce2,
    ensures
        staging_path_spec(root, tool, p, nonce1) != staging_path_spec(root, tool, p, nonce2),
        archive_path_spec(root, p.asset_name_spec(tool), nonce1) != archive_path_spec(
            root,
            p.asset_name_spec(tool),
            nonce2,
        ),
{
    let e = p.executable_name_spec(tool);
    let a = p.asset_name_spec(tool);
    if staging_path_spec(root, tool, p, nonce1) == staging_path_spec(root, tool, p, nonce2) {
        lemma_join_injective(root, e + "."@ + nonce1 + ".tmp"@, e + "."@ + nonce2 + ".tmp"@);
        lemma_tag_injective(e, nonce1, nonce2, ".tmp"@);
    }
    if archive_path_spec(root, a, nonce1) == archive_path_spec(root, a, nonce2) {
        lemma_join_injective(root, a + "."@ + nonce1 + ".part"@, a + "."@ + nonce2 + ".part"@);
        lemma_tag_injective(a, nonce1, nonce2, ".part"@);
    }
}

/// In an acquisition laid out by `begin` (every step keeps that layout), no
/// action but the final rename writes or removes the installed path: a
/// download, a staging write and the cleanup after a failure all name
/// temporary files only, so a failure leaves the previous installed binary
/// (or none) in place.
pub proof fn lemma_only_install_touches_installed_path(
    root: Seq<char>,
    tool: Seq<char>,
    p: Platform,
    nonce: Seq<char>,
    s: Acquisition,
    event: Event,
    next: Stage,
    r: Action,
)
    requires
        s.final_path@ == binary_path_spec(root, tool, p),
        s.staging_path@ == staging_path_spec(root, tool, p, nonce),
        s.archive_path@ == archive_path_spec(root, p.asset_name_spec(tool), nonce),
        transition(s, event, next, r),
    ensures
        r matches Action::Download { archive_path, .. } ==> archive_path@ != s.final_path@,
        r matches Action::Stage { archive_path, staging_path, .. } ==> archive_path@
            != s.final_path@ && staging_path@ != s.final_path@,
        r matches Action::Finish { cleanup, .. } ==> forall|k: int|
            0 <= k < cleanup@.len() ==> (#[trigger] cleanup@[k])@ != s.final_path@,
{
    lemma_temporary_paths_not_installed(root, tool, p, nonce);
    if let Action::Finish { cleanup, .. } = r {
        let v = paths_view(cleanup@);
        let a = s.archive_path@;
        let t = s.staging_path@;
        if v.len() == 0 {
            assert(v =~= seq![]);
        }
        assert(v == Seq::<Seq<char>>::empty() || v == seq![a] || v == seq![a, t] || v == seq![t]);
        assert forall|k: int| 0 <= k < cleanup@.len() implies (#[trigger] cleanup@[k])@
            != s.final_path@ by {
            assert(v[k] == cleanup@[k]@);
        }
    }
}

proof fn lemma_join_last(root: Seq<char>, x: Seq<char>)
    requires
        x.len() > 0,
    ensures
        join_path(root, x).last() == x.last(),
{
}

/// A staging file and an archive file never coincide: their names end
/// differently.
proof fn lemma_staging_is_not_archive(
    root: Seq<char>,
    tool: Seq<char>,
    p: Platform,
    nonce1: Seq<char>,
    nonce2: Seq<char>,
)
    ensures
        staging_path_spec(root, tool, p, nonce1) != archive_path_spec(
            root,
            p.asset_name_spec(tool),
            nonce2,
        ),
{
    reveal_strlit(".tmp");
    reveal_strlit(".part");
    let x = p.executable_name_spec(tool) + "."@ + nonce1 + ".tmp"@;
    let y = p.asset_name_spec(tool) + "."@ + nonce2 + ".part"@;
    assert(x.last() == 'p');
    assert(y.last() == 't');
    lemma_join_last(root, x);
    lemma_join_last(root, y);
}

/// Two simultaneous forced refreshes of one tool, begun with different
/// nonces: both run the whole pipeline, both install to the same path, and
/// each writes only temporary files of its own, none of them the installed
/// path or a file of the other. With `lemma_only_install_touches_installed_path`
/// and `lemma_install_only_after_staging`, the installed path only ever
/// receives a rename of a completely written staging file; which of the two
/// renames lands last is up to the file system.
pub proof fn lemma_concurrent_refreshes_isolated(
    d: Downloader,
    tool: Seq<char>,
    p: Platform,
    cached1: bool,
    expected1: Option<String>,
    nonce1: Seq<char>,
    a1: Acquisition,
    act1: Action,
    cached2: bool,
    expected2: Option<String>,
    nonce2: Seq<char>,
    a2: Acquisition,
    act2: Action,
)
    requires
        nonce1 != nonce2,
        begin_outcome(d, tool, p, true, cached1, expected1, nonce1, a1, act1),
        begin_outcome(d, tool, p, true, cached2, expected2, nonce2, a2, act2),
    ensures
        act1 is FetchRelease && act2 is FetchRelease,
        a1.final_path@ == a2.final_path@,
        a1.staging_path@ != a2.staging_path@,
        a1.archive_path@ != a2.archive_path@,
        a1.staging_path@ != a2.archive_path@,
        a1.archive_path@ != a2.staging_path@,
        a1.staging_path@ != a1.final_path@ && a1.archive_path@ != a1.final_path@,
        a2.staging_path@ != a2.final_path@ && a2.archive_path@ != a2.final_path@,
{
    let root = d.cache_dir@;
    lemma_temporary_paths_distinct(root, tool, p, nonce1, nonce2);
    lemma_temporary_paths_not_installed(root, tool, p, nonce1);
    lemma_temporary_paths_not_installed(root, tool, p, nonce2);
    lemma_staging_is_not_archive(root, tool, p, nonce1, nonce2);
    lemma_staging_is_not_archive(root, tool, p, nonce2, nonce1);
}

/// The installed path is renamed onto only after the staging file was written
/// in full: an `Install` follows a successful `Staged` and nothing else.
pub proof fn lemma_install_only_after_staging(
    s: Acquisition,
    event: Event,
    next: Stage,
    r: Action,
)
    requires
        transition(s, event, next, r),
        r is Install,
    ensures
        event matches Event::Staged(Ok(_)),
        installs(r, s.staging_path@, s.final_path@, s.executable),
{
}

} // verus!
