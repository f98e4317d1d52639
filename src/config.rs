use vstd::prelude::*;
use crate::downloader::{join, join_path};

verus! {

/// Where releases are looked up.
#[derive(Debug, Clone, PartialEq, Eq)]
pub struct GitHubConfig {
    pub owner: String,
    pub repo: String,
    pub check_prerelease: bool,
}

/// Where binaries are cached.
#[derive(Debug, Clone, PartialEq, Eq)]
pub struct CacheConfig {
    /// Overrides the platform's cache directory when set.
    pub directory: Option<String>,
    pub auto_clean: bool,
    pub max_versions: usize,
}

/// User preferences.
#[derive(Debug, Clone, PartialEq, Eq)]
pub struct BehaviorConfig {
    pub auto_update_check: bool,
    pub use_system_binaries: bool,
    pub prefer_local_build: bool,
}

/// The persisted settings: read by the core, never changed by it.
#[derive(Debug, Clone, PartialEq, Eq)]
pub struct Config {
    pub github: GitHubConfig,
    pub cache: CacheConfig,
    pub behavior: BehaviorConfig,
}

/// Relies on dirs::cache_dir: the platform's per-user cache directory, when
/// the environment names one and it is valid Unicode.
#[verifier::external_body]
fn system_cache_dir() -> (r: Option<String>) {
    dirs::cache_dir()?.into_os_string().into_string().ok()
}

/// The cache directory: the configured override, else `saorsa-cli/binaries`
/// inside the platform's cache directory, else none.
pub open spec fn cache_dir_spec(directory: Option<String>, system: Option<String>) -> Option<
    Seq<char>,
> {
    match directory {
        Some(d) => Some(d@),
        None => match system {
            Some(s) => Some(join_path(join_path(s@, "saorsa-cli"@), "binaries"@)),
            None => None,
        },
    }
}

impl Default for Config {
    fn default() -> (r: Config)
        ensures
            r.github.owner@ == "dirvine"@,
            r.github.repo@ == "saorsa-cli"@,
            !r.github.check_prerelease,
            r.cache.directory is None,
            !r.cache.auto_clean,
            r.cache.max_versions == 3,
            r.behavior.auto_update_check,
            !r.behavior.use_system_binaries,
            !r.behavior.prefer_local_build,
    {
        Config {
            github: GitHubConfig {
                owner: String::from_str("dirvine"),
                repo: String::from_str("saorsa-cli"),
                check_prerelease: false,
            },
            cache: CacheConfig { directory: None, auto_clean: false, max_versions: 3 },
            behavior: BehaviorConfig {
                auto_update_check: true,
                use_system_binaries: false,
                prefer_local_build: false,
            },
        }
    }
}

impl Config {
    /// Applies the command-line flags: `--no-update-check` turns update checks
    /// off and `--use-system` turns system binaries on; an absent flag keeps
    /// the setting.
    pub fn update_from_cli(&mut self, no_update_check: bool, use_system: bool)
        ensures
            final(self).behavior.auto_update_check == (old(self).behavior.auto_update_check
                && !no_update_check),
            final(self).behavior.use_system_binaries == (old(self).behavior.use_system_binaries
                || use_system),
            final(self).behavior.prefer_local_build == old(self).behavior.prefer_local_build,
            final(self).github == old(self).github,
            final(self).cache == old(self).cache,
    {
        if no_update_check {
            self.behavior.auto_update_check = false;
        }
        if use_system {
            self.behavior.use_system_binaries = true;
        }
    }

    /// The cache directory given the platform's cache directory `system`.
    pub fn cache_dir_from(&self, system: Option<String>) -> (r: Option<String>)
        ensures
            match r {
                Some(d) => cache_dir_spec(self.cache.directory, system) == Some(d@),
                None => cache_dir_spec(self.cache.directory, system) is None,
            },
    {
        match &self.cache.directory {
            Some(d) => Some(String::from_str(d.as_str())),
            None => match system {
                Some(s) => {
                    let app = join(s.as_str(), "saorsa-cli");
                    Some(join(app.as_str(), "binaries"))
                },
                None => None,
            },
        }
    }

    /// The cache directory: the override when set, whatever the environment.
    pub fn cache_dir(&self) -> (r: Option<String>)
        ensures
            self.cache.directory matches Some(d) ==> (r matches Some(x) && x@ == d@),
    {
        self.cache_dir_from(system_cache_dir())
    }
}

} // verus!
