//! The simple installation path: switch to a version that is already
//! installed, install from a cached archive, or download and install.
use vstd::prelude::*;
use crate::commands::{shown_all, Shown, UiLine};
use crate::error::{error_text, GvmError};
use crate::paths::{join, path_join};
use crate::ui::display::Messages;
use crate::text::str_equal;
use crate::{InstallRequest, SwitchRequest};

verus! {

/// How the simple installation proceeds.
#[derive(Debug, Clone, Copy, PartialEq, Eq, Structural)]
pub enum FallbackRoute {
    /// The version is installed and reinstalling is not forced.
    SwitchToExisting,
    /// The archive is cached and reinstalling is not forced.
    FromCache,
    /// Create the directories, then download and install.
    DownloadAndInstall,
}

/// What the simple installation does: its route, the paths it works with,
/// and what it removes first.
#[derive(Debug, Clone)]
pub struct FallbackPlan {
    pub route: FallbackRoute,
    pub version_dir: String,
    pub archive_name: String,
    pub cached_file: String,
    /// Remove the installed version first (reinstalling is forced).
    pub remove_version_dir: bool,
    /// Remove the cached archive first (reinstalling is forced).
    pub remove_cached_file: bool,
}

/// Go's system and architecture names as this path chooses them: Windows
/// and Linux are amd64 on x86_64 and 386 otherwise, macOS amd64 on x86_64
/// and arm64 otherwise.
pub open spec fn fallback_os_arch(rust_os: Seq<char>, rust_arch: Seq<char>) -> (Seq<char>, Seq<char>) {
    let x64 = rust_arch == "x86_64"@;
    if rust_os == "windows"@ {
        ("windows"@, if x64 { "amd64"@ } else { "386"@ })
    } else if rust_os == "macos"@ {
        ("darwin"@, if x64 { "amd64"@ } else { "arm64"@ })
    } else {
        ("linux"@, if x64 { "amd64"@ } else { "386"@ })
    }
}

/// The archive name this path looks for in the cache.
pub open spec fn fallback_archive(version: Seq<char>, rust_os: Seq<char>, rust_arch: Seq<char>) -> Seq<char> {
    let (os, arch) = fallback_os_arch(rust_os, rust_arch);
    "go"@ + version + "."@ + os + "-"@ + arch + "."@ + (if rust_os == "windows"@ { "zip"@ } else { "tar.gz"@ })
}

/// The archive name for `version` on the system that Rust names
/// `rust_os`/`rust_arch`.
pub fn fallback_archive_name(version: &str, rust_os: &str, rust_arch: &str) -> (res: String)
    ensures
        res@ == fallback_archive(version@, rust_os@, rust_arch@),
{
    let x64 = str_equal(rust_arch, "x86_64");
    let windows = str_equal(rust_os, "windows");
    let (os, arch) = if windows {
        ("windows", if x64 { "amd64" } else { "386" })
    } else if str_equal(rust_os, "macos") {
        ("darwin", if x64 { "amd64" } else { "arm64" })
    } else {
        ("linux", if x64 { "amd64" } else { "386" })
    };
    let extension = if windows { "zip" } else { "tar.gz" };
    let mut s = String::from_str("go");
    s.append(version);
    s.append(".");
    s.append(os);
    s.append("-");
    s.append(arch);
    s.append(".");
    s.append(extension);
    s
}

/// Decides the simple installation, given whether the version's directory
/// and the cached archive exist: switch to an installed version unless
/// `force`; otherwise remove what `force` replaces, then install from the
/// cache when the archive is there and reinstalling is not forced, or
/// download and install.
pub fn install_with_fallback(
    version: &str,
    install_dir: &str,
    cache_dir: &str,
    force: bool,
    version_exists: bool,
    cached_exists: bool,
    rust_os: &str,
    rust_arch: &str,
) -> (res: FallbackPlan)
    ensures
        res.version_dir@ == path_join(install_dir@, version@),
        res.archive_name@ == fallback_archive(version@, rust_os@, rust_arch@),
        res.cached_file@ == path_join(cache_dir@, res.archive_name@),
        res.route == (if version_exists && !force {
            FallbackRoute::SwitchToExisting
        } else if cached_exists && !force {
            FallbackRoute::FromCache
        } else {
            FallbackRoute::DownloadAndInstall
        }),
        res.remove_version_dir == (force && version_exists),
        res.remove_cached_file == (res.route != FallbackRoute::SwitchToExisting && force && cached_exists),
{
    let version_dir = join(install_dir, version);
    let archive_name = fallback_archive_name(version, rust_os, rust_arch);
    let cached_file = join(cache_dir, archive_name.as_str());
    let route = if version_exists && !force {
        FallbackRoute::SwitchToExisting
    } else if cached_exists && !force {
        FallbackRoute::FromCache
    } else {
        FallbackRoute::DownloadAndInstall
    };
    FallbackPlan {
        route,
        version_dir,
        archive_name,
        cached_file,
        remove_version_dir: force && version_exists,
        remove_cached_file: route != FallbackRoute::SwitchToExisting && force && cached_exists,
    }
}

/// The switch to a version that is already installed.
pub fn switch_to_existing_version(version: &str, install_dir: &str) -> (res: SwitchRequest)
    ensures
        res.version@ == version@,
        res.base_dir@ == install_dir@,
        !res.global,
        !res.force,
{
    SwitchRequest {
        version: String::from_str(version),
        base_dir: String::from_str(install_dir),
        global: false,
        force: false,
    }
}

/// How switching to an installed version ends the simple installation, given
/// how the switch went: it reports that the version is installed and the
/// switch's success or failure, and the installation succeeds either way.
pub fn switched_to_existing(version: &str, switched: &Result<(), GvmError>) -> (res: (Vec<UiLine>, Result<(), GvmError>))
    ensures
        res.1 is Ok,
        shown_all(res.0@) == seq![
            Shown::Info("Go "@ + version@ + " is already installed, switching to it"@),
            match switched {
                Ok(_) => Shown::Success("Successfully switched to Go "@ + version@),
                Err(e) => Shown::Error("Failed to switch version: "@ + error_text(*e)),
            },
        ],
{
    let mut lines: Vec<UiLine> = Vec::new();
    let mut info = String::from_str("Go ");
    info.append(version);
    info.append(" is already installed, switching to it");
    lines.push(UiLine::Info(info));
    match switched {
        Ok(()) => lines.push(UiLine::Success(Messages::switched_to_go_successfully(version))),
        Err(e) => {
            let m = e.message();
            lines.push(UiLine::Error(Messages::switch_failed(m.as_str())));
        },
    }
    proof {
        let expected = seq![
            Shown::Info("Go "@ + version@ + " is already installed, switching to it"@),
            match switched {
                Ok(_) => Shown::Success("Successfully switched to Go "@ + version@),
                Err(e) => Shown::Error("Failed to switch version: "@ + error_text(*e)),
            },
        ];
        assert(shown_all(lines@) =~= expected);
    }
    (lines, Ok(()))
}

/// The installation from the cache: the archive's directory as download
/// directory, nothing forced.
pub fn install_from_cache(version: &str, install_dir: &str, cache_dir: &str) -> (res: InstallRequest)
    ensures
        res.version@ == version@,
        res.install_dir@ == install_dir@,
        res.download_dir@ == cache_dir@,
        !res.force,
{
    InstallRequest {
        version: String::from_str(version),
        install_dir: String::from_str(install_dir),
        download_dir: String::from_str(cache_dir),
        force: false,
    }
}

/// The installation after a download.
pub fn download_and_install(version: &str, install_dir: &str, cache_dir: &str, force: bool) -> (res: InstallRequest)
    ensures
        res.version@ == version@,
        res.install_dir@ == install_dir@,
        res.download_dir@ == cache_dir@,
        res.force == force,
{
    InstallRequest {
        version: String::from_str(version),
        install_dir: String::from_str(install_dir),
        download_dir: String::from_str(cache_dir),
        force,
    }
}

} // verus!
