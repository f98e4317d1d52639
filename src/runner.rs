use vstd::prelude::*;
use crate::downloader::{join, join_path, paths_view};
use crate::platform::Platform;
use crate::text::str_eq;

verus! {

/// Why a tool could not be run.
#[derive(Debug, Clone, PartialEq, Eq)]
pub enum RunnerError {
    /// Nothing exists at the path given.
    BinaryNotFound(String),
    /// The tool exited with a code that signals failure.
    NonZeroExit(i32),
}

/// How a finished tool process ended, as the launcher reads it.
#[derive(Debug, Clone, Copy, PartialEq, Eq, Structural)]
pub enum ExitOutcome {
    /// Exit code 0.
    Success,
    /// Exit code 130: the user interrupted the tool, a normal way to quit.
    Interrupted,
    /// Any other exit code: worth a warning, not a failure of the launcher.
    Failed(i32),
    /// No exit code: the process was ended by a signal.
    Signaled,
}

/// The exit code of a process ended by the user's interrupt (128 + SIGINT).
pub const INTERRUPTED_EXIT_CODE: i32 = 130;

pub open spec fn exit_outcome_spec(code: Option<i32>) -> ExitOutcome {
    match code {
        Some(c) => if c == 0 {
            ExitOutcome::Success
        } else if c == INTERRUPTED_EXIT_CODE {
            ExitOutcome::Interrupted
        } else {
            ExitOutcome::Failed(c)
        },
        None => ExitOutcome::Signaled,
    }
}

impl ExitOutcome {
    /// Reads a process's exit code.
    pub fn from_code(code: Option<i32>) -> (r: ExitOutcome)
        ensures
            r == exit_outcome_spec(code),
    {
        match code {
            Some(c) => if c == 0 {
                ExitOutcome::Success
            } else if c == INTERRUPTED_EXIT_CODE {
                ExitOutcome::Interrupted
            } else {
                ExitOutcome::Failed(c)
            },
            None => ExitOutcome::Signaled,
        }
    }

    /// Whether the outcome deserves a warning: only a failing exit code does.
    pub fn is_warning(&self) -> (r: bool)
        ensures
            r == (*self is Failed),
    {
        match self {
            ExitOutcome::Failed(_) => true,
            _ => false,
        }
    }
}

/// Relies on std::path::Path::is_file: whether a regular file is at `path`
/// now, following symbolic links.
#[verifier::external_body]
fn is_regular_file(path: &str) -> (r: bool) {
    std::path::Path::new(path).is_file()
}

/// The separator between directories in the executable search path.
pub open spec fn search_path_separator(p: Platform) -> char {
    if p.windows() {
        ';'
    } else {
        ':'
    }
}

/// Index at which the entry that holds position `i - 1` of `s` begins: just
/// past the last separator before `i`, or 0.
pub open spec fn entry_start(s: Seq<char>, sep: char, i: int) -> int
    decreases i,
{
    if i <= 0 {
        0
    } else if s[i - 1] == sep {
        i
    } else {
        entry_start(s, sep, i - 1)
    }
}

/// The non-empty entries of `s` that are closed by a separator before `i`, in order.
pub open spec fn closed_entries(s: Seq<char>, sep: char, i: int) -> Seq<Seq<char>>
    decreases i,
{
    if i <= 0 {
        seq![]
    } else if s[i - 1] == sep {
        let start = entry_start(s, sep, i - 1);
        if start < i - 1 {
            closed_entries(s, sep, i - 1).push(s.subrange(start, i - 1))
        } else {
            closed_entries(s, sep, i - 1)
        }
    } else {
        closed_entries(s, sep, i - 1)
    }
}

/// The non-empty directory entries of a `sep`-separated search path, in order.
pub open spec fn search_dirs(s: Seq<char>, sep: char) -> Seq<Seq<char>> {
    let start = entry_start(s, sep, s.len() as int);
    if start < s.len() {
        closed_entries(s, sep, s.len() as int).push(s.subrange(start, s.len() as int))
    } else {
        closed_entries(s, sep, s.len() as int)
    }
}

pub open spec fn joined_with(dirs: Seq<Seq<char>>, name: Seq<char>) -> Seq<Seq<char>> {
    dirs.map_values(|d: Seq<char>| join_path(d, name))
}

/// `<dir>/<name>` for each non-empty entry `dir` of the search path, in order.
pub open spec fn search_candidates(s: Seq<char>, sep: char, name: Seq<char>) -> Seq<Seq<char>> {
    joined_with(search_dirs(s, sep), name)
}

/// `i` is the first index at which `found` holds.
pub open spec fn is_first_found(found: Seq<bool>, i: int) -> bool {
    0 <= i < found.len() && found[i] && forall|j: int| 0 <= j < i ==> !found[j]
}

/// The candidate paths for `binary_name` on `search_path`, in search order
/// (entries separated by `;` on Windows, `:` elsewhere; empty entries skipped).
pub fn candidates(binary_name: &str, search_path: &str, platform: &Platform) -> (r: Vec<String>)
    ensures
        paths_view(r@) == search_candidates(
            search_path@,
            search_path_separator(*platform),
            binary_name@,
        ),
{
    let sep = if platform.is_windows() {
        ';'
    } else {
        ':'
    };
    let ghost s = search_path@;
    let n = search_path.unicode_len();
    let mut out: Vec<String> = Vec::new();
    let mut start: usize = 0;
    let mut i: usize = 0;
    while i < n
        invariant
            s == search_path@,
            n == s.len(),
            sep == search_path_separator(*platform),
            i <= n,
            start as int == entry_start(s, sep, i as int),
            start <= i,
            paths_view(out@) == joined_with(closed_entries(s, sep, i as int), binary_name@),
        decreases n - i,
    {
        if search_path.get_char(i) == sep {
            if start < i {
                let dir = search_path.substring_char(start, i);
                let ghost before = out@;
                out.push(join(dir, binary_name));
                proof {
                    assert(paths_view(out@) =~= paths_view(before).push(
                        join_path(s.subrange(start as int, i as int), binary_name@),
                    ));
                    assert(joined_with(closed_entries(s, sep, i + 1), binary_name@) =~= joined_with(
                        closed_entries(s, sep, i as int),
                        binary_name@,
                    ).push(join_path(s.subrange(start as int, i as int), binary_name@)));
                }
            }
            start = i + 1;
        }
        i += 1;
    }
    if start < n {
        let dir = search_path.substring_char(start, n);
        let ghost before = out@;
        out.push(join(dir, binary_name));
        proof {
            assert(paths_view(out@) =~= paths_view(before).push(
                join_path(s.subrange(start as int, n as int), binary_name@),
            ));
            assert(search_candidates(s, sep, binary_name@) =~= joined_with(
                closed_entries(s, sep, n as int),
                binary_name@,
            ).push(join_path(s.subrange(start as int, n as int), binary_name@)));
        }
    }
    out
}

/// The first index at which `found` holds, if any.
pub fn first_found(found: &Vec<bool>) -> (r: Option<usize>)
    ensures
        r matches Some(i) ==> is_first_found(found@, i as int),
        r is None <==> forall|j: int| 0 <= j < found@.len() ==> !found@[j],
{
    let mut i: usize = 0;
    while i < found.len()
        invariant
            i <= found@.len(),
            forall|j: int| 0 <= j < i ==> !found@[j],
        decreases found.len() - i,
    {
        if found[i] {
            return Some(i);
        }
        i += 1;
    }
    None
}

/// The binary that a tool name given on the command line stands for.
pub open spec fn tool_binary_name(tool: Seq<char>) -> Option<Seq<char>> {
    if tool == "sb"@ || tool == "saorsa-browser"@ {
        Some("sb"@)
    } else if tool == "sdisk"@ || tool == "saorsa-disk"@ {
        Some("sdisk"@)
    } else {
        None
    }
}

/// The binary for a tool name: `sb` for "sb" or "saorsa-browser", `sdisk`
/// for "sdisk" or "saorsa-disk", none for anything else.
pub fn binary_name_for(tool: &str) -> (r: Option<&'static str>)
    ensures
        match r {
            Some(b) => tool_binary_name(tool@) == Some(b@),
            None => tool_binary_name(tool@) is None,
        },
{
    if str_eq(tool, "sb") || str_eq(tool, "saorsa-browser") {
        Some("sb")
    } else if str_eq(tool, "sdisk") || str_eq(tool, "saorsa-disk") {
        Some("sdisk")
    } else {
        None
    }
}

/// Where a tool is to be run from.
#[derive(Debug, Clone, PartialEq, Eq)]
pub enum ToolSource {
    /// A binary found on the executable search path.
    OnPath(String),
    /// The binary installed in the cache.
    Cached(String),
    /// Nothing usable: it has to be acquired.
    Acquire,
}

/// Where a tool is run from: the search-path hit when system binaries are
/// preferred, no refresh is forced and one was found; else the cached binary
/// when present and no refresh is forced; else it must be acquired.
pub fn choose_source(
    use_system: bool,
    force: bool,
    on_path: Option<String>,
    cache_path: String,
    cached: bool,
) -> (r: ToolSource)
    ensures
        ({
            if use_system && !force && on_path is Some {
                r == ToolSource::OnPath(on_path->Some_0)
            } else if cached && !force {
                r == ToolSource::Cached(cache_path)
            } else {
                r == ToolSource::Acquire
            }
        }),
{
    if use_system && !force {
        if let Some(p) = on_path {
            return ToolSource::OnPath(p);
        }
    }
    if cached && !force {
        ToolSource::Cached(cache_path)
    } else {
        ToolSource::Acquire
    }
}

/// Finds, launches and judges the outcome of companion tools.
#[derive(Debug, Clone, Copy, PartialEq, Eq)]
pub struct BinaryRunner;

impl BinaryRunner {
    pub fn new() -> (r: BinaryRunner) {
        BinaryRunner
    }

    /// Whether a regular file exists at `binary_path`.
    pub fn check_binary_exists(&self, binary_path: &str) -> (r: bool) {
        is_regular_file(binary_path)
    }

    /// The check made before launching: a tool runs only from a path where a
    /// file exists; otherwise `BinaryNotFound` names the path.
    pub fn check_runnable(&self, binary_path: &str) -> (r: Result<(), RunnerError>)
        ensures
            r matches Err(e) ==> (e matches RunnerError::BinaryNotFound(p) && p@ == binary_path@),
    {
        if is_regular_file(binary_path) {
            Ok(())
        } else {
            Err(RunnerError::BinaryNotFound(String::from_str(binary_path)))
        }
    }

    /// The first candidate path (see `candidates`) that is a regular file,
    /// or `None` when none is. Every candidate is probed on disk, in order, and
    /// `first_found` picks among the answers; no shell is involved.
    pub fn which(&self, binary_name: &str, search_path: &str, platform: &Platform) -> (r: Option<
        String,
    >)
        ensures
            r matches Some(p) ==> search_candidates(
                search_path@,
                search_path_separator(*platform),
                binary_name@,
            ).contains(p@),
    {
        let c = candidates(binary_name, search_path, platform);
        let mut found: Vec<bool> = Vec::new();
        let mut k: usize = 0;
        while k < c.len()
            invariant
                k <= c@.len(),
                found@.len() == k,
            decreases c.len() - k,
        {
            found.push(is_regular_file(c[k].as_str()));
            k += 1;
        }
        match first_found(&found) {
            Some(i) => {
                assert(paths_view(c@)[i as int] == c@[i as int]@);
                Some(String::from_str(c[i].as_str()))
            },
            None => None,
        }
    }
}

} // verus!
