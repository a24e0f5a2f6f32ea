//! Go version management: what each operation decides.
//!
//! The versions directory holds one directory per installed version, named by
//! the version, and a link `current` to the active one. Each operation here
//! takes what the program observed of the file system (whether a path exists,
//! what the link points to, the directory's entries) and returns the result or
//! the changes to make.
use vstd::prelude::*;
use crate::error::GvmError;
use crate::paths::{file_name, is_plain_name, join, lemma_file_name_of_join, path_eq, path_file_name, path_join, same_path};
use crate::platform::{archive_name, PlatformInfo};
use crate::text::{sort_strings, sorted_lex, str_equal, views};
use crate::{ListInstalledRequest, RuntimeStatus, StatusRequest, SwitchRequest, UninstallRequest, VersionList};

verus! {

/// Detailed information about a Go version.
#[derive(Debug, Clone, PartialEq, Eq, PartialOrd, Ord)]
pub struct GoVersionInfo {
    /// Version number (e.g., "1.21.0")
    pub version: String,
    /// Operating system (e.g., "linux", "windows", "darwin")
    pub os: String,
    /// Architecture (e.g., "amd64", "arm64", "386")
    pub arch: String,
    /// File extension (e.g., "tar.gz", "zip")
    pub extension: String,
    /// Complete filename (e.g., "go1.21.0.linux-amd64.tar.gz")
    pub filename: String,
    /// Download URL
    pub download_url: String,
    /// Official SHA256 checksum
    pub sha256: Option<String>,
    /// File size in bytes
    pub size: Option<u64>,
    /// Whether it's installed
    pub is_installed: bool,
    /// Whether it's cached
    pub is_cached: bool,
    /// Local installation path (if installed)
    pub install_path: Option<String>,
    /// Cache file path (if cached)
    pub cache_path: Option<String>,
}

/// What was observed of the `current` link: whether the path exists (through
/// the link), whether it is a link, and the link's target when it could be read.
#[derive(Debug, Clone)]
pub struct LinkState {
    pub exists: bool,
    pub is_symlink: bool,
    pub target: Option<String>,
}

/// An entry of the versions directory.
#[derive(Debug, Clone)]
pub struct DirEntry {
    pub name: String,
    pub is_dir: bool,
}

/// The changes that switching makes: remove the old link when there is one,
/// then link `current_path` to `version_path`.
#[derive(Debug, Clone)]
pub struct SwitchPlan {
    pub version_path: String,
    pub current_path: String,
    pub remove_existing: bool,
}

/// A directory to remove, and the context of the error if removing fails.
#[derive(Debug, Clone)]
pub struct DirRemoval {
    pub path: String,
    pub failure_context: String,
}

/// The target of the `current` link, when it exists and is a readable link.
pub open spec fn link_target(link: LinkState) -> Option<Seq<char>> {
    if link.exists && link.is_symlink {
        match link.target {
            Some(t) => Some(t@),
            None => None,
        }
    } else {
        None
    }
}

/// The active version: the final component of the link's target.
pub open spec fn active_version(link: LinkState) -> Option<Seq<char>> {
    match link_target(link) {
        Some(t) => file_name(t),
        None => None,
    }
}

/// The view of an optional string.
pub open spec fn opt_string(o: Option<String>) -> Option<Seq<char>> {
    match o {
        Some(s) => Some(s@),
        None => None,
    }
}

/// The versions that a directory listing shows: directories other than `current`.
pub open spec fn installed_names(entries: Seq<DirEntry>) -> Seq<Seq<char>>
    decreases entries.len(),
{
    if entries.len() == 0 {
        Seq::empty()
    } else {
        let rest = installed_names(entries.drop_last());
        let e = entries.last();
        if e.is_dir && e.name@ != "current"@ {
            rest.push(e.name@)
        } else {
            rest
        }
    }
}

/// An entry of a local listing: installed, at `base/<version>`, with the
/// running platform's names and nothing known of its archive.
pub open spec fn local_info(info: GoVersionInfo, base: Seq<char>, rust_os: Seq<char>, rust_arch: Seq<char>) -> bool {
    &&& info.os@ == rust_os
    &&& info.arch@ == rust_arch
    &&& info.extension@ == Seq::<char>::empty()
    &&& info.filename@ == Seq::<char>::empty()
    &&& info.download_url@ == Seq::<char>::empty()
    &&& info.sha256 is None
    &&& info.size is None
    &&& info.is_installed
    &&& !info.is_cached
    &&& opt_string(info.install_path) == Some(path_join(base, info.version@))
    &&& info.cache_path is None
}

/// The version names of a list of version entries.
pub open spec fn version_names(v: Seq<GoVersionInfo>) -> Seq<Seq<char>> {
    v.map_values(|i: GoVersionInfo| i.version@)
}

/// The download location of a release archive.
pub open spec fn download_url_of(filename: Seq<char>) -> Seq<char> {
    "https://go.dev/dl/"@ + filename
}

/// The directory of the versions when a status request names none.
pub open spec fn default_versions_dir(home: Option<Seq<char>>) -> Seq<char> {
    let h = match home {
        Some(h) => h,
        None => "."@,
    };
    path_join(path_join(h, ".gvm"@), "versions"@)
}

pub struct GoManager {}

/// The environment variables as pairs of texts.
pub open spec fn env_view(v: Seq<(String, String)>) -> Seq<(Seq<char>, Seq<char>)> {
    v.map_values(|p: (String, String)| (p.0@, p.1@))
}

/// The separator of the entries of `PATH` on the system that Rust names
/// `rust_os`: `;` on Windows, `:` elsewhere.
pub open spec fn path_separator_of(rust_os: Seq<char>) -> Seq<char> {
    if rust_os == "windows"@ { ";"@ } else { ":"@ }
}

/// The separator of the entries of `PATH` on the system that Rust names
/// `rust_os`.
pub fn path_list_separator(rust_os: &str) -> (res: &'static str)
    ensures
        res@ == path_separator_of(rust_os@),
{
    proof {
        reveal_strlit(";");
        reveal_strlit(":");
    }
    if crate::text::str_equal(rust_os, "windows") { ";" } else { ":" }
}

/// The environment for using the Go tree at `goroot`: `GOROOT`, then
/// `GOPATH` (the one already set, else `go` in the home directory, else
/// none), then `PATH` with the tree's `bin` first.
pub open spec fn go_environment(
    goroot: Seq<char>,
    path_env: Seq<char>,
    gopath_env: Option<Seq<char>>,
    home: Option<Seq<char>>,
    rust_os: Seq<char>,
) -> Seq<(Seq<char>, Seq<char>)> {
    let gopath = match gopath_env {
        Some(g) => seq![("GOPATH"@, g)],
        None => match home {
            Some(h) => seq![("GOPATH"@, path_join(h, "go"@))],
            None => Seq::empty(),
        },
    };
    seq![("GOROOT"@, goroot)] + gopath + seq![("PATH"@, path_join(goroot, "bin"@) + path_separator_of(rust_os) + path_env)]
}

impl GoManager {
    pub fn new() -> (res: Self) {
        GoManager {}
    }

    /// The directory of a version: `<base>/<version>`.
    pub fn version_path(base_dir: &str, version: &str) -> (res: String)
        ensures
            res@ == path_join(base_dir@, version@),
    {
        join(base_dir, version)
    }

    /// The link to the active version: `<base>/current`.
    pub fn current_link_path(base_dir: &str) -> (res: String)
        ensures
            res@ == path_join(base_dir@, "current"@),
    {
        join(base_dir, "current")
    }

    /// Switches to a version: refused when its directory does not exist;
    /// otherwise the old link goes when `current` exists, and `current` is
    /// linked to the version's directory.
    pub fn switch_version(&self, version: &str, base_dir: &str, version_exists: bool, current_exists: bool) -> (res: Result<SwitchPlan, GvmError>)
        ensures
            !version_exists ==> (res matches Err(GvmError::NotInstalled { version: v }) && v@ == version@),
            version_exists ==> (res matches Ok(plan)
                && plan.version_path@ == path_join(base_dir@, version@)
                && plan.current_path@ == path_join(base_dir@, "current"@)
                && plan.remove_existing == current_exists),
    {
        if !version_exists {
            return Err(GvmError::NotInstalled { version: String::from_str(version) });
        }
        Ok(SwitchPlan {
            version_path: Self::version_path(base_dir, version),
            current_path: Self::current_link_path(base_dir),
            remove_existing: current_exists,
        })
    }

    /// Switches as a request asks.
    pub fn switch_to(&self, request: SwitchRequest, version_exists: bool, current_exists: bool) -> (res: Result<SwitchPlan, GvmError>)
        ensures
            !version_exists ==> (res matches Err(GvmError::NotInstalled { version: v }) && v@ == request.version@),
            version_exists ==> (res matches Ok(plan)
                && plan.version_path@ == path_join(request.base_dir@, request.version@)
                && plan.current_path@ == path_join(request.base_dir@, "current"@)
                && plan.remove_existing == current_exists),
    {
        self.switch_version(request.version.as_str(), request.base_dir.as_str(), version_exists, current_exists)
    }

    /// The active version, read from the `current` link.
    pub fn get_current_version(&self, link: &LinkState) -> (res: Option<String>)
        ensures
            opt_string(res) == active_version(*link),
    {
        if link.exists && link.is_symlink {
            match &link.target {
                Some(t) => path_file_name(t.as_str()),
                None => None,
            }
        } else {
            None
        }
    }

    /// The target of the `current` link.
    pub fn get_link_target(&self, link: &LinkState) -> (res: Option<String>)
        ensures
            opt_string(res) == link_target(*link),
    {
        if link.exists && link.is_symlink {
            match &link.target {
                Some(t) => Some(t.clone()),
                None => None,
            }
        } else {
            None
        }
    }

    /// A line that describes the `current` link.
    pub fn get_symlink_info(&self, base_dir: &str, link: &LinkState) -> (res: String)
        ensures
            match link_target(*link) {
                Some(t) => res@ == path_join(base_dir@, "current"@) + " -> "@ + t,
                None => res@ == "No symlink found"@,
            },
    {
        if link.exists && link.is_symlink {
            if let Some(t) = &link.target {
                let mut s = Self::current_link_path(base_dir);
                s.append(" -> ");
                s.append(t.as_str());
                return s;
            }
        }
        String::from_str("No symlink found")
    }

    /// Uninstalls a version: refused when it is not installed or when the
    /// `current` link points at its directory; otherwise its directory goes.
    pub fn uninstall(&self, request: UninstallRequest, version_exists: bool, link: &LinkState) -> (res: Result<DirRemoval, GvmError>)
        ensures
            !version_exists ==> (res matches Err(GvmError::NotInstalled { version: v }) && v@ == request.version@),
            version_exists && (link_target(*link) matches Some(t) && same_path(t, path_join(request.base_dir@, request.version@)))
                ==> (res matches Err(GvmError::CurrentlyActive { version: v }) && v@ == request.version@),
            version_exists && !(link_target(*link) matches Some(t) && same_path(t, path_join(request.base_dir@, request.version@)))
                ==> (res matches Ok(r) && r.path@ == path_join(request.base_dir@, request.version@)
                    && r.failure_context@ == "Failed to remove version directory"@),
    {
        let version_path = Self::version_path(request.base_dir.as_str(), request.version.as_str());
        if !version_exists {
            return Err(GvmError::NotInstalled { version: request.version });
        }
        if link.exists && link.is_symlink {
            if let Some(t) = &link.target {
                if path_eq(t.as_str(), version_path.as_str()) {
                    return Err(GvmError::CurrentlyActive { version: request.version });
                }
            }
        }
        Ok(DirRemoval {
            path: version_path,
            failure_context: String::from_str("Failed to remove version directory"),
        })
    }

    /// The versions that a listing shows, by name, in the order of the entries.
    pub fn installed_version_names(entries: &Vec<DirEntry>) -> (res: Vec<String>)
        ensures
            views(res@) == installed_names(entries@),
    {
        let mut names: Vec<String> = Vec::new();
        let mut i: usize = 0;
        while i < entries.len()
            invariant
                i <= entries@.len(),
                views(names@) == installed_names(entries@.subrange(0, i as int)),
            decreases entries@.len() - i,
        {
            let e = &entries[i];
            let ghost sub = entries@.subrange(0, i + 1);
            proof {
                assert(sub.drop_last() =~= entries@.subrange(0, i as int));
                assert(sub.last() == entries@[i as int]);
            }
            if e.is_dir && !str_equal(e.name.as_str(), "current") {
                names.push(e.name.clone());
                proof {
                    assert(views(names@) =~= installed_names(entries@.subrange(0, i as int)).push(e.name@));
                }
            }
            i = i + 1;
        }
        assert(entries@.subrange(0, i as int) =~= entries@);
        names
    }

    /// The installed versions: the directories of the versions directory other
    /// than `current`, sorted by name; none when the directory does not exist.
    /// Each carries the running platform's names (`rust_os`, `rust_arch`).
    pub fn list_installed(
        &self,
        request: ListInstalledRequest,
        base_exists: bool,
        entries: Vec<DirEntry>,
        rust_os: &str,
        rust_arch: &str,
    ) -> (res: VersionList)
        ensures
            res.total_count == res.versions@.len(),
            !base_exists ==> res.versions@.len() == 0,
            base_exists ==> version_names(res.versions@).to_multiset() == installed_names(entries@).to_multiset(),
            sorted_lex(version_names(res.versions@)),
            forall|i: int| 0 <= i < res.versions@.len() ==> local_info(#[trigger] res.versions@[i], request.base_dir@, rust_os@, rust_arch@),
    {
        let mut versions: Vec<GoVersionInfo> = Vec::new();
        if !base_exists {
            proof {
                assert(version_names(versions@) =~= Seq::<Seq<char>>::empty());
            }
            return VersionList { versions, total_count: 0 };
        }
        let names = sort_strings(Self::installed_version_names(&entries));
        let mut i: usize = 0;
        while i < names.len()
            invariant
                i <= names@.len(),
                version_names(versions@) == views(names@).subrange(0, i as int),
                forall|k: int| 0 <= k < versions@.len() ==> local_info(#[trigger] versions@[k], request.base_dir@, rust_os@, rust_arch@),
            decreases names@.len() - i,
        {
            let name = &names[i];
            let info = GoVersionInfo {
                version: name.clone(),
                os: String::from_str(rust_os),
                arch: String::from_str(rust_arch),
                extension: String::new(),
                filename: String::new(),
                download_url: String::new(),
                sha256: None,
                size: None,
                is_installed: true,
                is_cached: false,
                install_path: Some(Self::version_path(request.base_dir.as_str(), name.as_str())),
                cache_path: None,
            };
            let ghost prev = versions@;
            versions.push(info);
            proof {
                assert(versions@ == prev.push(info));
                assert(version_names(versions@) =~= version_names(prev).push(info.version@));
                assert(views(names@)[i as int] == names@[i as int]@);
                assert(views(names@).subrange(0, i + 1) =~= views(names@).subrange(0, i as int).push(names@[i as int]@));
                assert(version_names(versions@) =~= views(names@).subrange(0, i + 1));
            }
            i = i + 1;
        }
        proof {
            assert(views(names@).subrange(0, i as int) =~= views(names@));
        }
        let total_count = versions.len();
        VersionList { versions, total_count }
    }

    /// The installed versions, given what reading the versions directory
    /// gave: none when the directory does not exist; the read's error when
    /// it exists but cannot be read; otherwise `list_installed` of its
    /// entries.
    pub fn list_installed_from(
        &self,
        request: ListInstalledRequest,
        base_exists: bool,
        read: Result<Vec<DirEntry>, String>,
        rust_os: &str,
        rust_arch: &str,
    ) -> (res: Result<VersionList, GvmError>)
        ensures
            !base_exists ==> (res matches Ok(list) && list.total_count == 0 && list.versions@.len() == 0),
            base_exists ==> match read {
                Err(detail) => res matches Err(GvmError::Failed { context, detail: d })
                    && context@ == "Failed to read directory"@ && d@ == detail@,
                Ok(entries) => res matches Ok(list) && list.total_count == list.versions@.len()
                    && version_names(list.versions@).to_multiset() == installed_names(entries@).to_multiset()
                    && sorted_lex(version_names(list.versions@))
                    && forall|i: int| 0 <= i < list.versions@.len()
                        ==> local_info(#[trigger] list.versions@[i], request.base_dir@, rust_os@, rust_arch@),
            },
    {
        if !base_exists {
            return Ok(self.list_installed(request, false, Vec::new(), rust_os, rust_arch));
        }
        match read {
            Err(detail) => Err(GvmError::Failed { context: String::from_str("Failed to read directory"), detail }),
            Ok(entries) => Ok(self.list_installed(request, true, entries, rust_os, rust_arch)),
        }
    }

    /// The versions offered for download.
    pub fn list_available(&self) -> (res: VersionList)
        ensures
            res.total_count == 3,
            res.versions@.len() == 3,
            res.versions@[0].version@ == "1.21.3"@,
            res.versions@[1].version@ == "1.21.2"@,
            res.versions@[2].version@ == "1.21.1"@,
            res.versions@[0].filename@ == "go1.21.3.linux-amd64.tar.gz"@,
            res.versions@[1].filename@ == "go1.21.2.linux-amd64.tar.gz"@,
            res.versions@[2].filename@ == "go1.21.1.linux-amd64.tar.gz"@,
            forall|i: int| 0 <= i < 3 ==> {
                &&& (#[trigger] res.versions@[i]).os@ == "linux"@
                &&& res.versions@[i].arch@ == "amd64"@
                &&& res.versions@[i].extension@ == "tar.gz"@
                &&& res.versions@[i].download_url@ == Seq::<char>::empty()
                &&& res.versions@[i].sha256 is None
                &&& res.versions@[i].size is None
                &&& !res.versions@[i].is_installed
                &&& !res.versions@[i].is_cached
                &&& res.versions@[i].install_path is None
                &&& res.versions@[i].cache_path is None
            },
    {
        let mut versions: Vec<GoVersionInfo> = Vec::new();
        versions.push(Self::remote_info("1.21.3", "go1.21.3.linux-amd64.tar.gz"));
        versions.push(Self::remote_info("1.21.2", "go1.21.2.linux-amd64.tar.gz"));
        versions.push(Self::remote_info("1.21.1", "go1.21.1.linux-amd64.tar.gz"));
        let total_count = versions.len();
        VersionList { versions, total_count }
    }

    /// An entry of the offered list: a linux-amd64 archive, not installed.
    fn remote_info(version: &str, filename: &str) -> (res: GoVersionInfo)
        ensures
            res.version@ == version@,
            res.filename@ == filename@,
            res.os@ == "linux"@,
            res.arch@ == "amd64"@,
            res.extension@ == "tar.gz"@,
            res.download_url@ == Seq::<char>::empty(),
            res.sha256 is None,
            res.size is None,
            !res.is_installed,
            !res.is_cached,
            res.install_path is None,
            res.cache_path is None,
    {
        GoVersionInfo {
            version: String::from_str(version),
            os: String::from_str("linux"),
            arch: String::from_str("amd64"),
            extension: String::from_str("tar.gz"),
            filename: String::from_str(filename),
            download_url: String::new(),
            sha256: None,
            size: None,
            is_installed: false,
            is_cached: false,
            install_path: None,
            cache_path: None,
        }
    }

    /// The versions directory that a status request looks at: the one it
    /// names, else `~/.gvm/versions` (`./.gvm/versions` without a home).
    pub fn status_base_dir(request: &StatusRequest, home: Option<&str>) -> (res: String)
        ensures
            match request.base_dir {
                Some(b) => res@ == b@,
                None => res@ == default_versions_dir(crate::config::opt_view(home)),
            },
    {
        match &request.base_dir {
            Some(b) => b.clone(),
            None => {
                let h = match home {
                    Some(h) => String::from_str(h),
                    None => String::from_str("."),
                };
                let g = join(h.as_str(), ".gvm");
                join(g.as_str(), "versions")
            },
        }
    }

    /// The status of the versions directory `base_dir` (from
    /// `status_base_dir`): the active version, the link's target, and, when
    /// the active version's directory exists, the environment for it:
    /// `GOROOT`, `GOPATH` and `PATH`. `GOPATH` is kept when already set
    /// (`gopath_env`), else it is `go` in the home directory, and left out
    /// without one. `PATH` puts the version's `bin` before the current `PATH`
    /// (`path_env`, empty when unset), joined by the path-list separator of
    /// the system that Rust names `rust_os`.
    pub fn status(
        &self,
        base_dir: &str,
        link: &LinkState,
        version_dir_exists: bool,
        path_env: &str,
        gopath_env: Option<&str>,
        home: Option<&str>,
        rust_os: &str,
    ) -> (res: RuntimeStatus)
        ensures
            opt_string(res.current_version) == active_version(*link),
            opt_string(res.current_path) == link_target(*link),
            env_view(res.environment_vars@) == match active_version(*link) {
                Some(v) if version_dir_exists => go_environment(
                    path_join(base_dir@, v),
                    path_env@,
                    crate::config::opt_view(gopath_env),
                    crate::config::opt_view(home),
                    rust_os@,
                ),
                _ => Seq::empty(),
            },
    {
        let current_version = self.get_current_version(link);
        let mut environment_vars: Vec<(String, String)> = Vec::new();
        if let Some(version) = &current_version {
            if version_dir_exists {
                let version_path = Self::version_path(base_dir, version.as_str());
                let mut path_value = join(version_path.as_str(), "bin");
                path_value.append(path_list_separator(rust_os));
                path_value.append(path_env);
                environment_vars.push((String::from_str("GOROOT"), version_path));
                match gopath_env {
                    Some(g) => environment_vars.push((String::from_str("GOPATH"), String::from_str(g))),
                    None => match home {
                        Some(h) => environment_vars.push((String::from_str("GOPATH"), join(h, "go"))),
                        None => {},
                    },
                }
                environment_vars.push((String::from_str("PATH"), path_value));
                proof {
                    assert(env_view(environment_vars@) =~= go_environment(
                        path_join(base_dir@, version@),
                        path_env@,
                        crate::config::opt_view(gopath_env),
                        crate::config::opt_view(home),
                        rust_os@,
                    ));
                }
            }
        }
        proof {
            if !(current_version.is_some() && version_dir_exists) {
                assert(env_view(environment_vars@) =~= Seq::<(Seq<char>, Seq<char>)>::empty());
            }
        }
        RuntimeStatus {
            current_version,
            current_path: self.get_link_target(link),
            environment_vars,
        }
    }

    /// What is known of a version locally: its archive for this platform, the
    /// download location, and whether it is installed or cached.
    pub fn get_version_info(
        &self,
        version: &str,
        install_dir: &str,
        cache_dir: &str,
        platform: &PlatformInfo,
        install_exists: bool,
        cache_exists: bool,
    ) -> (res: GoVersionInfo)
        ensures
            res.version@ == version@,
            res.os@ == platform.os@,
            res.arch@ == platform.arch@,
            res.extension@ == platform.extension@,
            res.filename@ == archive_name(version@, platform.os@, platform.arch@, platform.extension@),
            res.download_url@ == download_url_of(res.filename@),
            res.sha256 is None,
            res.size is None,
            res.is_installed == install_exists,
            res.is_cached == cache_exists,
            opt_string(res.install_path) == (if install_exists { Some(path_join(install_dir@, version@)) } else { None }),
            opt_string(res.cache_path) == (if cache_exists { Some(path_join(cache_dir@, res.filename@)) } else { None }),
    {
        let filename = platform.archive_filename(version);
        let mut download_url = String::from_str("https://go.dev/dl/");
        download_url.append(filename.as_str());
        let install_path = join(install_dir, version);
        let cache_path = join(cache_dir, filename.as_str());
        GoVersionInfo {
            version: String::from_str(version),
            os: platform.os.clone(),
            arch: platform.arch.clone(),
            extension: platform.extension.clone(),
            filename,
            download_url,
            sha256: None,
            size: None,
            is_installed: install_exists,
            is_cached: cache_exists,
            install_path: if install_exists { Some(install_path) } else { None },
            cache_path: if cache_exists { Some(cache_path) } else { None },
        }
    }
}

/// Law: once `current` links to the directory that switching to a version
/// names, the active version is that version (for a version that is a plain
/// directory name).
pub proof fn lemma_switch_then_current(base: Seq<char>, version: Seq<char>, link: LinkState)
    requires
        is_plain_name(version),
        link_target(link) == Some(path_join(base, version)),
    ensures
        active_version(link) == Some(version),
{
    lemma_file_name_of_join(base, version);
}

/// Law: the version that `current` links to cannot be uninstalled: the
/// link's target is that version's directory, which is the condition on
/// which uninstalling refuses.
pub proof fn lemma_active_version_kept(base: Seq<char>, version: Seq<char>, link: LinkState)
    requires
        link_target(link) == Some(path_join(base, version)),
    ensures
        link_target(link) matches Some(t) && same_path(t, path_join(base, version)),
{
}

/// The `current` link as it reads once a switch plan was carried out: a
/// link, to a directory that exists, whose target is the plan's version
/// directory.
pub open spec fn reads_as_switched(plan: SwitchPlan, link: LinkState) -> bool {
    &&& link.exists
    &&& link.is_symlink
    &&& link.target matches Some(t) && t@ == plan.version_path@
}

/// Law: after switching to a version (a plain directory name) under `base`,
/// the link's target read back is that version's directory and the active
/// version read back is that version.
pub proof fn lemma_switch_round_trip(base: Seq<char>, version: Seq<char>, plan: SwitchPlan, link: LinkState)
    requires
        is_plain_name(version),
        plan.version_path@ == path_join(base, version),
        reads_as_switched(plan, link),
    ensures
        link_target(link) == Some(path_join(base, version)),
        active_version(link) == Some(version),
{
    lemma_file_name_of_join(base, version);
}

/// Law: without a `current` link there is neither a link target nor an
/// active version.
pub proof fn lemma_no_link_no_version(link: LinkState)
    requires
        !link.exists,
    ensures
        link_target(link) is None,
        active_version(link) is None,
{
}

} // verus!
