//! Provisioning decisions for the native artifact.
//!
//! The artifact is a prebuilt shared library, fetched as a versioned,
//! platform-tagged archive and installed into a well-known directory.
//! This module holds every decision of that process as a function over
//! plain values: the artifact's file name per OS family, the platform
//! tag, the download URL, the search directories, and the once-per-process
//! cache of the provisioning outcome. The application layer performs the
//! actual probing, download and extraction and feeds the results back in.

use vstd::prelude::*;
use vstd::string::*;

use crate::error::ChronDBError;

verus! {

/// The operating-system family a build targets.
#[derive(Debug, Clone, Copy, PartialEq, Eq, Structural)]
pub enum TargetOs {
    Linux,
    MacOs,
    Windows,
    /// Any other family; treated like Linux when naming the artifact.
    Other,
}

/// The CPU architecture a build targets.
#[derive(Debug, Clone, Copy, PartialEq, Eq, Structural)]
pub enum TargetArch {
    X86_64,
    Aarch64,
    /// Any other architecture; no prebuilt artifact exists for it.
    Other,
}

/// The artifact's file name for an OS family, at the specification level.
pub open spec fn lib_name_spec(os: TargetOs) -> Seq<char> {
    match os {
        TargetOs::MacOs => "libchrondb.dylib"@,
        TargetOs::Linux => "libchrondb.so"@,
        TargetOs::Windows => "chrondb.dll"@,
        TargetOs::Other => "libchrondb.so"@,
    }
}

/// The well-known file name of the native artifact on the given OS family.
pub fn get_lib_name(os: TargetOs) -> (r: &'static str)
    ensures
        r@ == lib_name_spec(os),
{
    match os {
        TargetOs::MacOs => "libchrondb.dylib",
        TargetOs::Linux => "libchrondb.so",
        TargetOs::Windows => "chrondb.dll",
        TargetOs::Other => "libchrondb.so",
    }
}

/// The platform tag used in release archive names, at the specification
/// level; `None` where no prebuilt artifact is published.
pub open spec fn platform_spec(os: TargetOs, arch: TargetArch) -> Option<Seq<char>> {
    match (os, arch) {
        (TargetOs::Linux, TargetArch::X86_64) => Some("linux-x86_64"@),
        (TargetOs::Linux, TargetArch::Aarch64) => Some("linux-aarch64"@),
        (TargetOs::MacOs, TargetArch::X86_64) => Some("macos-x86_64"@),
        (TargetOs::MacOs, TargetArch::Aarch64) => Some("macos-aarch64"@),
        _ => None,
    }
}

/// The platform tag for a (OS, architecture) pair, or `None` when no
/// prebuilt artifact is available for it.
pub fn get_platform(os: TargetOs, arch: TargetArch) -> (r: Option<&'static str>)
    ensures
        match r {
            Some(p) => platform_spec(os, arch) == Some(p@),
            None => platform_spec(os, arch) is None,
        },
{
    match (os, arch) {
        (TargetOs::Linux, TargetArch::X86_64) => Some("linux-x86_64"),
        (TargetOs::Linux, TargetArch::Aarch64) => Some("linux-aarch64"),
        (TargetOs::MacOs, TargetArch::X86_64) => Some("macos-x86_64"),
        (TargetOs::MacOs, TargetArch::Aarch64) => Some("macos-aarch64"),
        _ => None,
    }
}

/// `p` occurs in `s` starting at position `i`.
pub open spec fn has_sub_at(s: Seq<char>, p: Seq<char>, i: int) -> bool {
    0 <= i && i + p.len() <= s.len() && s.subrange(i, i + p.len()) == p
}

/// `p` occurs somewhere in `s`.
pub open spec fn contains_sub(s: Seq<char>, p: Seq<char>) -> bool {
    exists|i: int| has_sub_at(s, p, i)
}

/// Whether the version string names a development build, marked by the
/// `-dev` suffix convention anywhere in the string.
pub fn version_is_dev(version: &str) -> (b: bool)
    ensures
        b == contains_sub(version@, "-dev"@),
{
    proof {
        reveal_strlit("-dev");
    }
    let n: usize = version.unicode_len();
    if n < 4 {
        proof {
            assert forall|i: int| !has_sub_at(version@, "-dev"@, i) by {
                assert("-dev"@.len() == 4);
            }
        }
        return false;
    }
    let mut i: usize = 0;
    while i <= n - 4
        invariant
            4 <= n,
            n == version@.len(),
            i <= n - 3,
            "-dev"@.len() == 4,
            "-dev"@[0] == '-' && "-dev"@[1] == 'd' && "-dev"@[2] == 'e' && "-dev"@[3] == 'v',
            forall|j: int| 0 <= j < i ==> !has_sub_at(version@, "-dev"@, j),
        decreases n - i,
    {
        let c0 = version.get_char(i);
        let c1 = version.get_char(i + 1);
        let c2 = version.get_char(i + 2);
        let c3 = version.get_char(i + 3);
        if c0 == '-' && c1 == 'd' && c2 == 'e' && c3 == 'v' {
            proof {
                let ghost w = i as int;
                assert(version@.subrange(w, w + 4) =~= "-dev"@);
                assert(has_sub_at(version@, "-dev"@, w));
            }
            return true;
        }
        proof {
            let ghost w = i as int;
            if has_sub_at(version@, "-dev"@, w) {
                assert(version@.subrange(w, w + 4)[0] == version@[w]);
                assert(version@.subrange(w, w + 4)[1] == version@[w + 1]);
                assert(version@.subrange(w, w + 4)[2] == version@[w + 2]);
                assert(version@.subrange(w, w + 4)[3] == version@[w + 3]);
            }
        }
        i = i + 1;
    }
    proof {
        assert forall|j: int| !has_sub_at(version@, "-dev"@, j) by {
            if 0 <= j < i {
            } else {
                assert(j < 0 || j + 4 > n);
            }
        }
    }
    false
}

/// The URL of the release archive, at the specification level. A
/// development version maps to the `latest` channel; a released version
/// maps to its own tag.
pub open spec fn download_url_spec(version: Seq<char>, platform: Seq<char>) -> Seq<char> {
    if contains_sub(version, "-dev"@) {
        "https://github.com/moclojer/chrondb/releases/download/latest/libchrondb-latest-"@
            + platform + ".tar.gz"@
    } else {
        "https://github.com/moclojer/chrondb/releases/download/v"@ + version + "/libchrondb-"@
            + version + "-"@ + platform + ".tar.gz"@
    }
}

/// Builds the download URL for a given version and platform tag.
pub fn build_download_url(version: &str, platform: &str) -> (r: String)
    ensures
        r@ == download_url_spec(version@, platform@),
{
    let mut s: String;
    if version_is_dev(version) {
        s = "https://github.com/moclojer/chrondb/releases/download/latest/libchrondb-latest-"
            .to_owned();
    } else {
        s = "https://github.com/moclojer/chrondb/releases/download/v".to_owned();
        s.append(version);
        s.append("/libchrondb-");
        s.append(version);
        s.append("-");
    }
    s.append(platform);
    s.append(".tar.gz");
    proof {
        assert(s@ =~= download_url_spec(version@, platform@));
    }
    s
}

/// The standard install directory under a home directory.
pub fn home_lib_dir(home: &str) -> (r: String)
    ensures
        r@ == home@ + "/.chrondb/lib"@,
{
    let mut s: String = home.to_owned();
    s.append("/.chrondb/lib");
    s
}

/// The install/search directory, resolved by priority: the explicit
/// override directory when set, else the well-known directory under the
/// home directory, else nothing.
pub fn get_library_dir(override_dir: Option<String>, home: Option<String>) -> (r: Option<String>)
    ensures
        match override_dir {
            Some(d) => r == Some(d),
            None => match home {
                Some(h) => r matches Some(p) && p@ == h@ + "/.chrondb/lib"@,
                None => r is None,
            },
        },
{
    match override_dir {
        Some(d) => Some(d),
        None => match home {
            Some(h) => Some(home_lib_dir(h.as_str())),
            None => None,
        },
    }
}

/// The artifact path inside a directory, at the specification level.
pub open spec fn lib_path_spec(dir: Seq<char>, os: TargetOs) -> Seq<char> {
    dir + "/"@ + lib_name_spec(os)
}

fn join_lib_path(dir: &str, os: TargetOs) -> (r: String)
    ensures
        r@ == lib_path_spec(dir@, os),
{
    let mut s: String = dir.to_owned();
    s.append("/");
    s.append(get_lib_name(os));
    proof {
        assert(s@ =~= lib_path_spec(dir@, os));
    }
    s
}

/// The artifact paths the loader searches, in priority order: the
/// override directory when set, then the resolved install directory —
/// which repeats the override when one is set, since the loader never
/// falls back past an explicit override. The application probes each
/// for existence in turn. The pre-provisioning existence check uses
/// `library_probe_candidates` instead, which does fall back to the
/// home directory.
pub fn library_path_candidates(
    override_dir: Option<String>,
    home: Option<String>,
    os: TargetOs,
) -> (r: Vec<String>)
    ensures
        match override_dir {
            Some(d) => r@.len() == 2 && r@[0]@ == lib_path_spec(d@, os) && r@[1]@ == lib_path_spec(
                d@,
                os,
            ),
            None => match home {
                Some(h) => r@.len() == 1 && r@[0]@ == lib_path_spec(h@ + "/.chrondb/lib"@, os),
                None => r@.len() == 0,
            },
        },
{
    let mut out: Vec<String> = Vec::new();
    if let Some(d) = &override_dir {
        out.push(join_lib_path(d.as_str(), os));
    }
    match get_library_dir(override_dir, home) {
        Some(dir) => {
            out.push(join_lib_path(dir.as_str(), os));
        },
        None => {},
    }
    out
}

/// The artifact paths the pre-provisioning existence probe checks, in
/// order: the override directory when set, and in any case the
/// well-known directory under the home directory. Unlike the loader's
/// search, this probe falls back to the home directory even when an
/// override is set, so an artifact already installed there is found and
/// no download is attempted.
pub fn library_probe_candidates(
    override_dir: Option<String>,
    home: Option<String>,
    os: TargetOs,
) -> (r: Vec<String>)
    ensures
        match (override_dir, home) {
            (Some(d), Some(h)) => r@.len() == 2 && r@[0]@ == lib_path_spec(d@, os) && r@[1]@
                == lib_path_spec(h@ + "/.chrondb/lib"@, os),
            (Some(d), None) => r@.len() == 1 && r@[0]@ == lib_path_spec(d@, os),
            (None, Some(h)) => r@.len() == 1 && r@[0]@ == lib_path_spec(h@ + "/.chrondb/lib"@, os),
            (None, None) => r@.len() == 0,
        },
{
    let mut out: Vec<String> = Vec::new();
    if let Some(d) = &override_dir {
        out.push(join_lib_path(d.as_str(), os));
    }
    if let Some(h) = &home {
        let dir = home_lib_dir(h.as_str());
        out.push(join_lib_path(dir.as_str(), os));
    }
    out
}

/// The platform gate of provisioning: the platform tag for the (OS,
/// architecture) pair, or the fixed failure text when no prebuilt
/// artifact is published for it.
pub fn require_platform(os: TargetOs, arch: TargetArch) -> (r: Result<&'static str, String>)
    ensures
        match r {
            Ok(p) => platform_spec(os, arch) == Some(p@),
            Err(m) => platform_spec(os, arch) is None && m@
                == "No pre-built library available for this platform"@,
        },
{
    match get_platform(os, arch) {
        Some(p) => Ok(p),
        None => Err("No pre-built library available for this platform".to_owned()),
    }
}

/// The install-directory gate of provisioning: the well-known directory
/// under the home directory, or the fixed failure text when no home
/// directory can be determined.
pub fn require_install_dir(home: Option<String>) -> (r: Result<String, String>)
    ensures
        match home {
            Some(h) => r matches Ok(d) && d@ == h@ + "/.chrondb/lib"@,
            None => r matches Err(m) && m@ == "Cannot determine home directory"@,
        },
{
    match home {
        Some(h) => Ok(home_lib_dir(h.as_str())),
        None => Err("Cannot determine home directory".to_owned()),
    }
}

/// Whether a directory listing contains the artifact's file name for the
/// given OS family.
pub fn library_exists_in_dir(entries: &Vec<String>, os: TargetOs) -> (r: bool)
    ensures
        r == exists|i: int| 0 <= i < entries@.len() && entries@[i]@ == lib_name_spec(os),
{
    let name: String = get_lib_name(os).to_owned();
    let mut i: usize = 0;
    while i < entries.len()
        invariant
            name@ == lib_name_spec(os),
            forall|j: int| 0 <= j < i ==> entries@[j]@ != lib_name_spec(os),
        decreases entries@.len() - i,
    {
        if entries[i] == name {
            return true;
        }
        i = i + 1;
    }
    false
}

/// Picks the directory the archive unpacked to: the first of the
/// top-level directories found, or the fixed failure text when there is
/// none.
pub fn pick_extracted_dir(dirs: &Vec<String>) -> (r: Result<String, String>)
    ensures
        match r {
            Ok(d) => dirs@.len() > 0 && d == dirs@[0],
            Err(m) => dirs@.len() == 0 && m@ == "Archive did not contain expected directory structure"@,
        },
{
    if dirs.len() == 0 {
        Err("Archive did not contain expected directory structure".to_owned())
    } else {
        Ok(dirs[0].clone())
    }
}

/// How a raw provisioning outcome surfaces to a caller: a failure text
/// is wrapped as `SetupFailed`, success passes through.
pub open spec fn setup_outcome(raw: Result<(), String>) -> Result<(), ChronDBError> {
    match raw {
        Ok(()) => Ok(()),
        Err(m) => Err(ChronDBError::SetupFailed(m)),
    }
}

/// The once-per-process memo of the provisioning outcome. The first
/// outcome, successful or not, is recorded and replayed by every later
/// call; provisioning is never retried within a process.
pub struct SetupCache {
    outcome: Option<Result<(), String>>,
}

impl SetupCache {
    /// The recorded outcome, if any.
    pub closed spec fn cached(&self) -> Option<Result<(), String>> {
        self.outcome
    }

    /// A fresh cache with nothing recorded.
    pub fn new() -> (r: Self)
        ensures
            r.cached() is None,
    {
        SetupCache { outcome: None }
    }

    /// Whether an outcome has been recorded; once one has, any probe or
    /// download the caller would make is pointless, since the recorded
    /// outcome is replayed.
    pub fn is_recorded(&self) -> (b: bool)
        ensures
            b == (self.cached() is Some),
    {
        self.outcome.is_some()
    }
}

/// Ensures the native library is installed, memoized per process.
///
/// `present` says whether a probe found the artifact already on disk;
/// `download` is the raw outcome of the application's fetch-and-extract
/// attempt, consulted only when nothing is cached and the artifact is
/// absent. The first call records its outcome in `cache`; every later
/// call replays the recorded outcome and changes nothing.
pub fn ensure_library_installed(
    cache: &mut SetupCache,
    present: bool,
    download: Result<(), String>,
) -> (r: Result<(), ChronDBError>)
    ensures
        match old(cache).cached() {
            Some(prior) => final(cache).cached() == old(cache).cached() && r == setup_outcome(
                prior,
            ),
            None => if present {
                final(cache).cached() == Some(Ok::<(), String>(())) && r matches Ok(())
            } else {
                final(cache).cached() == Some(download) && r == setup_outcome(download)
            },
        },
{
    if cache.outcome.is_some() {
        match &cache.outcome {
            Some(Ok(())) => Ok(()),
            Some(Err(m)) => Err(ChronDBError::SetupFailed(m.clone())),
            None => Ok(()),
        }
    } else if present {
        cache.outcome = Some(Ok(()));
        Ok(())
    } else {
        let r: Result<(), ChronDBError> = match &download {
            Ok(()) => Ok(()),
            Err(m) => Err(ChronDBError::SetupFailed(m.clone())),
        };
        cache.outcome = Some(download);
        r
    }
}

} // verus!
