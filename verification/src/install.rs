//! Installing a version, as a state machine.
//!
//! Installation downloads the release archive unless it is cached, refuses
//! an existing installation unless reinstalling is forced, checks the archive
//! against the SHA-256 checksum published beside it, removes the existing
//! installation when replacing it, extracts the archive into a
//! temporary directory, moves its top-level `go` directory to the version's
//! directory and checks that the Go executable is there. Each step here takes
//! what the program observed of the last action and gives the next action;
//! the program performs the actions.
use vstd::prelude::*;
use crate::checksum::{archive_digest, digest_matches, published_digest, published_digest_of, sha256_hex_of};
use crate::error::GvmError;
use crate::paths::{join, path_join};
use crate::platform::{archive_extension, archive_name, go_arch_name, go_os_name, PlatformInfo};
use crate::{InstallRequest, VersionInfo};

verus! {

/// The names and paths that installing a version works with.
#[derive(Debug, Clone)]
pub struct InstallLayout {
    pub version: String,
    pub filename: String,
    pub download_url: String,
    /// Where the archive's published SHA-256 checksum is fetched from.
    pub checksum_url: String,
    pub archive_path: String,
    pub version_dir: String,
    pub temp_dir: String,
    pub extracted_go_dir: String,
    pub go_binary: String,
    pub force: bool,
    /// The running system's name as Rust gives it (`std::env::consts::OS`).
    pub rust_os: String,
    /// The running architecture's name as Rust gives it.
    pub rust_arch: String,
}

/// Where an installation stands: the action it waits on.
#[derive(Debug, Clone, Copy, PartialEq, Eq, Structural)]
pub enum InstallStage {
    CheckArchive,
    Downloading,
    CheckVersionDir,
    FetchingChecksum,
    ReadingArchive,
    RemovingVersionDir,
    CheckTempDir,
    RemovingTempDir,
    CreatingTempDir,
    Extracting,
    CheckExtracted,
    DiscardingTemp,
    Renaming,
    RemovingTemp,
    CheckBinary,
    Finished,
}

/// What the program observed of the last action: whether a path exists,
/// whether an operation succeeded (with the error's text when it failed),
/// the text fetched, or the bytes of the file read.
#[derive(Debug, Clone)]
pub enum InstallEvent {
    Exists(bool),
    Completed,
    Failed { detail: String },
    Fetched { text: String },
    Read { data: Vec<u8> },
}

/// The next thing for the program to do.
#[derive(Debug)]
pub enum InstallAction {
    /// Report whether the path exists.
    CheckExists { path: String },
    /// Download `url` to `destination`, showing `filename` in the progress.
    Download { url: String, destination: String, filename: String },
    /// Fetch the text at `url`.
    FetchText { url: String },
    /// Read the whole file.
    ReadFile { path: String },
    /// Remove a directory and everything under it.
    RemoveDirAll { path: String },
    /// Create a directory and its parents.
    CreateDirAll { path: String },
    /// Unpack the archive into the directory.
    Extract { archive: String, destination: String },
    /// Rename a directory.
    Rename { from: String, to: String },
    /// The installation is over.
    Finish { result: Result<VersionInfo, GvmError> },
}

/// An installation in progress, with the checksum file's text once it was
/// fetched, and whether it replaces an existing installation.
pub struct Installation {
    pub layout: InstallLayout,
    pub stage: InstallStage,
    pub published: String,
    pub replacing: bool,
}

/// The Go executable's name on a system that Rust names `rust_os`.
pub open spec fn go_exe_for(rust_os: Seq<char>) -> Seq<char> {
    if rust_os == "windows"@ { "go.exe"@ } else { "go"@ }
}

/// The layout of installing `version` into `install_dir`, with archives
/// kept in `download_dir`, on the system Rust names `rust_os`/`rust_arch`.
pub open spec fn is_layout(
    l: InstallLayout,
    version: Seq<char>,
    install_dir: Seq<char>,
    download_dir: Seq<char>,
    force: bool,
    rust_os: Seq<char>,
    rust_arch: Seq<char>,
) -> bool {
    let filename = archive_name(version, go_os_name(rust_os), go_arch_name(rust_arch), archive_extension(rust_os));
    let version_dir = path_join(install_dir, version);
    let temp_dir = path_join(install_dir, version + "_temp"@);
    &&& l.version@ == version
    &&& l.filename@ == filename
    &&& l.download_url@ == "https://go.dev/dl/"@ + filename
    &&& l.checksum_url@ == "https://go.dev/dl/"@ + filename + ".sha256"@
    &&& l.archive_path@ == path_join(download_dir, filename)
    &&& l.version_dir@ == version_dir
    &&& l.temp_dir@ == temp_dir
    &&& l.extracted_go_dir@ == path_join(temp_dir, "go"@)
    &&& l.go_binary@ == path_join(path_join(version_dir, "bin"@), go_exe_for(rust_os))
    &&& l.force == force
    &&& l.rust_os@ == rust_os
    &&& l.rust_arch@ == rust_arch
}

/// Whether the event reports an existing path.
pub open spec fn observed(e: InstallEvent) -> bool {
    e matches InstallEvent::Exists(true)
}

/// Whether the event reports a failed operation.
pub open spec fn failed(e: InstallEvent) -> bool {
    e is Failed
}

/// The error text that a failure event carries.
pub open spec fn failure_detail(e: InstallEvent) -> Seq<char> {
    match e {
        InstallEvent::Failed { detail } => detail@,
        _ => Seq::empty(),
    }
}

/// Whether the event gives the bytes of an archive whose digest is the one
/// that the checksum file `published` gives.
pub open spec fn digest_ok(published: Seq<char>, e: InstallEvent) -> bool {
    match e {
        InstallEvent::Read { data } => published_digest(published) == sha256_hex_of(data@),
        _ => false,
    }
}

/// The stage after `stage` once `event` is observed, with `published` the
/// checksum file's text fetched so far and `replacing` whether the version
/// was found installed.
pub open spec fn next_stage(
    stage: InstallStage,
    event: InstallEvent,
    force: bool,
    published: Seq<char>,
    replacing: bool,
) -> InstallStage {
    match stage {
        InstallStage::CheckArchive => if observed(event) { InstallStage::CheckVersionDir } else { InstallStage::Downloading },
        InstallStage::Downloading => if failed(event) { InstallStage::Finished } else { InstallStage::CheckVersionDir },
        InstallStage::CheckVersionDir => if observed(event) && !force {
            InstallStage::Finished
        } else {
            InstallStage::FetchingChecksum
        },
        InstallStage::FetchingChecksum => if event is Fetched { InstallStage::ReadingArchive } else { InstallStage::Finished },
        InstallStage::ReadingArchive => if !digest_ok(published, event) {
            InstallStage::Finished
        } else if replacing {
            InstallStage::RemovingVersionDir
        } else {
            InstallStage::CheckTempDir
        },
        InstallStage::RemovingVersionDir => if failed(event) { InstallStage::Finished } else { InstallStage::CheckTempDir },
        InstallStage::CheckTempDir => if observed(event) { InstallStage::RemovingTempDir } else { InstallStage::CreatingTempDir },
        InstallStage::RemovingTempDir => if failed(event) { InstallStage::Finished } else { InstallStage::CreatingTempDir },
        InstallStage::CreatingTempDir => if failed(event) { InstallStage::Finished } else { InstallStage::Extracting },
        InstallStage::Extracting => if failed(event) { InstallStage::Finished } else { InstallStage::CheckExtracted },
        InstallStage::CheckExtracted => if observed(event) { InstallStage::Renaming } else { InstallStage::DiscardingTemp },
        InstallStage::DiscardingTemp => InstallStage::Finished,
        InstallStage::Renaming => if failed(event) { InstallStage::Finished } else { InstallStage::RemovingTemp },
        InstallStage::RemovingTemp => if failed(event) { InstallStage::Finished } else { InstallStage::CheckBinary },
        InstallStage::CheckBinary => InstallStage::Finished,
        InstallStage::Finished => InstallStage::Finished,
    }
}

/// The position of a stage in the installation: every step moves forward.
pub open spec fn stage_rank(s: InstallStage) -> nat {
    match s {
        InstallStage::CheckArchive => 0,
        InstallStage::Downloading => 1,
        InstallStage::CheckVersionDir => 2,
        InstallStage::FetchingChecksum => 3,
        InstallStage::ReadingArchive => 4,
        InstallStage::RemovingVersionDir => 5,
        InstallStage::CheckTempDir => 6,
        InstallStage::RemovingTempDir => 7,
        InstallStage::CreatingTempDir => 8,
        InstallStage::Extracting => 9,
        InstallStage::CheckExtracted => 10,
        InstallStage::DiscardingTemp => 11,
        InstallStage::Renaming => 12,
        InstallStage::RemovingTemp => 13,
        InstallStage::CheckBinary => 14,
        InstallStage::Finished => 15,
    }
}

/// The action that a stage waits on.
pub open spec fn stage_action(l: InstallLayout, s: InstallStage, a: InstallAction) -> bool {
    match s {
        InstallStage::CheckArchive => a matches InstallAction::CheckExists { path } && path@ == l.archive_path@,
        InstallStage::Downloading => a matches InstallAction::Download { url, destination, filename }
            && url@ == l.download_url@ && destination@ == l.archive_path@ && filename@ == l.filename@,
        InstallStage::FetchingChecksum => a matches InstallAction::FetchText { url } && url@ == l.checksum_url@,
        InstallStage::ReadingArchive => a matches InstallAction::ReadFile { path } && path@ == l.archive_path@,
        InstallStage::CheckVersionDir => a matches InstallAction::CheckExists { path } && path@ == l.version_dir@,
        InstallStage::RemovingVersionDir => a matches InstallAction::RemoveDirAll { path } && path@ == l.version_dir@,
        InstallStage::CheckTempDir => a matches InstallAction::CheckExists { path } && path@ == l.temp_dir@,
        InstallStage::RemovingTempDir => a matches InstallAction::RemoveDirAll { path } && path@ == l.temp_dir@,
        InstallStage::CreatingTempDir => a matches InstallAction::CreateDirAll { path } && path@ == l.temp_dir@,
        InstallStage::Extracting => a matches InstallAction::Extract { archive, destination }
            && archive@ == l.archive_path@ && destination@ == l.temp_dir@,
        InstallStage::CheckExtracted => a matches InstallAction::CheckExists { path } && path@ == l.extracted_go_dir@,
        InstallStage::DiscardingTemp => a matches InstallAction::RemoveDirAll { path } && path@ == l.temp_dir@,
        InstallStage::Renaming => a matches InstallAction::Rename { from, to }
            && from@ == l.extracted_go_dir@ && to@ == l.version_dir@,
        InstallStage::RemovingTemp => a matches InstallAction::RemoveDirAll { path } && path@ == l.temp_dir@,
        InstallStage::CheckBinary => a matches InstallAction::CheckExists { path } && path@ == l.go_binary@,
        InstallStage::Finished => a is Finish,
    }
}

/// A failure of the step `context`, carrying the event's error text.
pub open spec fn failed_with(r: Result<VersionInfo, GvmError>, context: Seq<char>, e: InstallEvent) -> bool {
    r matches Err(GvmError::Failed { context: c, detail }) && c@ == context && detail@ == failure_detail(e)
}

/// The description of an installed version.
pub open spec fn installed_info(info: VersionInfo, l: InstallLayout) -> bool {
    &&& info.version@ == l.version@
    &&& info.os@ == l.rust_os@
    &&& info.arch@ == l.rust_arch@
    &&& info.url@ == Seq::<char>::empty()
    &&& info.sha256@ == Seq::<char>::empty()
    &&& info.is_installed
    &&& info.path@ == l.version_dir@
}

/// How an installation ends when `event` is observed at `stage` and leads
/// to the end, with `published` the checksum file's text fetched so far.
pub open spec fn finish_outcome(
    l: InstallLayout,
    stage: InstallStage,
    e: InstallEvent,
    published: Seq<char>,
    r: Result<VersionInfo, GvmError>,
) -> bool {
    match stage {
        InstallStage::Downloading => failed_with(r, "Download failed"@, e),
        InstallStage::FetchingChecksum => failed_with(r, "Failed to fetch checksum"@, e),
        InstallStage::ReadingArchive => match e {
            InstallEvent::Read { data } => r matches Err(GvmError::ChecksumMismatch { file, expected, actual })
                && file@ == l.filename@ && expected@ == published_digest(published) && actual@ == sha256_hex_of(data@),
            _ => failed_with(r, "Failed to read archive"@, e),
        },
        InstallStage::CheckVersionDir => r matches Err(GvmError::AlreadyInstalled { version }) && version@ == l.version@,
        InstallStage::RemovingVersionDir => failed_with(r, "Failed to remove existing installation"@, e),
        InstallStage::RemovingTempDir => failed_with(r, "Failed to remove temp directory"@, e),
        InstallStage::CreatingTempDir => failed_with(r, "Failed to create temp directory"@, e),
        InstallStage::Extracting => r matches Err(GvmError::Io { detail }) && detail@ == failure_detail(e),
        InstallStage::DiscardingTemp => r matches Err(GvmError::GoDirMissing),
        InstallStage::Renaming => failed_with(r, "Failed to rename go directory to version directory"@, e),
        InstallStage::RemovingTemp => failed_with(r, "Failed to remove temp directory"@, e),
        InstallStage::CheckBinary => if observed(e) {
            r matches Ok(info) && installed_info(info, l)
        } else {
            r matches Err(GvmError::BinaryMissing { path }) && path@ == l.go_binary@
        },
        _ => false,
    }
}

impl Installation {
    /// Starts installing as `request` asks, on the system that Rust names
    /// `rust_os`/`rust_arch`: the first action checks for a cached archive.
    pub fn start(request: &InstallRequest, rust_os: &str, rust_arch: &str) -> (res: (Installation, InstallAction))
        ensures
            is_layout(res.0.layout, request.version@, request.install_dir@, request.download_dir@, request.force, rust_os@, rust_arch@),
            res.0.stage == InstallStage::CheckArchive,
            res.0.published@ == Seq::<char>::empty(),
            !res.0.replacing,
            stage_action(res.0.layout, res.0.stage, res.1),
    {
        let version = request.version.as_str();
        let platform = PlatformInfo::detect(rust_os, rust_arch);
        let filename = platform.archive_filename(version);
        let mut download_url = String::from_str("https://go.dev/dl/");
        download_url.append(filename.as_str());
        let mut checksum_url = download_url.clone();
        checksum_url.append(".sha256");
        let archive_path = join(request.download_dir.as_str(), filename.as_str());
        let version_dir = join(request.install_dir.as_str(), version);
        let mut temp_name = String::from_str(version);
        temp_name.append("_temp");
        let temp_dir = join(request.install_dir.as_str(), temp_name.as_str());
        let extracted_go_dir = join(temp_dir.as_str(), "go");
        let bin_dir = join(version_dir.as_str(), "bin");
        let go_binary = join(bin_dir.as_str(), PlatformInfo::go_executable_name(rust_os));
        let layout = InstallLayout {
            version: String::from_str(version),
            filename,
            download_url,
            checksum_url,
            archive_path,
            version_dir,
            temp_dir,
            extracted_go_dir,
            go_binary,
            force: request.force,
            rust_os: String::from_str(rust_os),
            rust_arch: String::from_str(rust_arch),
        };
        let action = InstallAction::CheckExists { path: layout.archive_path.clone() };
        (Installation { layout, stage: InstallStage::CheckArchive, published: String::new(), replacing: false }, action)
    }

    /// The action that a stage waits on.
    fn action_of(&self, stage: InstallStage) -> (res: InstallAction)
        requires
            stage != InstallStage::Finished,
        ensures
            stage_action(self.layout, stage, res),
    {
        let l = &self.layout;
        match stage {
            InstallStage::CheckArchive => InstallAction::CheckExists { path: l.archive_path.clone() },
            InstallStage::Downloading => InstallAction::Download {
                url: l.download_url.clone(),
                destination: l.archive_path.clone(),
                filename: l.filename.clone(),
            },
            InstallStage::FetchingChecksum => InstallAction::FetchText { url: l.checksum_url.clone() },
            InstallStage::ReadingArchive => InstallAction::ReadFile { path: l.archive_path.clone() },
            InstallStage::CheckVersionDir => InstallAction::CheckExists { path: l.version_dir.clone() },
            InstallStage::RemovingVersionDir => InstallAction::RemoveDirAll { path: l.version_dir.clone() },
            InstallStage::CheckTempDir => InstallAction::CheckExists { path: l.temp_dir.clone() },
            InstallStage::RemovingTempDir => InstallAction::RemoveDirAll { path: l.temp_dir.clone() },
            InstallStage::CreatingTempDir => InstallAction::CreateDirAll { path: l.temp_dir.clone() },
            InstallStage::Extracting => InstallAction::Extract {
                archive: l.archive_path.clone(),
                destination: l.temp_dir.clone(),
            },
            InstallStage::CheckExtracted => InstallAction::CheckExists { path: l.extracted_go_dir.clone() },
            InstallStage::DiscardingTemp => InstallAction::RemoveDirAll { path: l.temp_dir.clone() },
            InstallStage::Renaming => InstallAction::Rename {
                from: l.extracted_go_dir.clone(),
                to: l.version_dir.clone(),
            },
            InstallStage::RemovingTemp => InstallAction::RemoveDirAll { path: l.temp_dir.clone() },
            _ => InstallAction::CheckExists { path: l.go_binary.clone() },
        }
    }

    /// A failure of the step `context`, with the event's error text.
    fn fail(context: &str, event: &InstallEvent) -> (res: Result<VersionInfo, GvmError>)
        ensures
            failed_with(res, context@, *event),
    {
        let detail = match event {
            InstallEvent::Failed { detail } => detail.clone(),
            _ => String::new(),
        };
        Err(GvmError::Failed { context: String::from_str(context), detail })
    }

    /// How the installation ends when `event` at the current stage leads to
    /// the end.
    fn outcome(&self, event: &InstallEvent) -> (res: Result<VersionInfo, GvmError>)
        requires
            next_stage(self.stage, *event, self.layout.force, self.published@, self.replacing) == InstallStage::Finished,
            self.stage != InstallStage::Finished,
        ensures
            finish_outcome(self.layout, self.stage, *event, self.published@, res),
    {
        let l = &self.layout;
        match self.stage {
            InstallStage::Downloading => Self::fail("Download failed", event),
            InstallStage::FetchingChecksum => Self::fail("Failed to fetch checksum", event),
            InstallStage::ReadingArchive => match event {
                InstallEvent::Read { data } => Err(GvmError::ChecksumMismatch {
                    file: l.filename.clone(),
                    expected: published_digest_of(self.published.as_str()),
                    actual: archive_digest(data.as_slice()),
                }),
                _ => Self::fail("Failed to read archive", event),
            },
            InstallStage::CheckVersionDir => Err(GvmError::AlreadyInstalled { version: l.version.clone() }),
            InstallStage::RemovingVersionDir => Self::fail("Failed to remove existing installation", event),
            InstallStage::RemovingTempDir => Self::fail("Failed to remove temp directory", event),
            InstallStage::CreatingTempDir => Self::fail("Failed to create temp directory", event),
            InstallStage::Extracting => {
                let detail = match event {
                    InstallEvent::Failed { detail } => detail.clone(),
                    _ => String::new(),
                };
                Err(GvmError::Io { detail })
            },
            InstallStage::DiscardingTemp => Err(GvmError::GoDirMissing),
            InstallStage::Renaming => Self::fail("Failed to rename go directory to version directory", event),
            InstallStage::RemovingTemp => Self::fail("Failed to remove temp directory", event),
            _ => {
                if let InstallEvent::Exists(true) = event {
                    Ok(VersionInfo {
                        version: l.version.clone(),
                        os: l.rust_os.clone(),
                        arch: l.rust_arch.clone(),
                        url: String::new(),
                        sha256: String::new(),
                        is_installed: true,
                        path: l.version_dir.clone(),
                    })
                } else {
                    Err(GvmError::BinaryMissing { path: l.go_binary.clone() })
                }
            },
        }
    }

    /// Takes what was observed of the last action and gives the next one.
    /// Every step moves the installation forward; it ends with `Finish`.
    pub fn step(&mut self, event: InstallEvent) -> (res: InstallAction)
        requires
            old(self).stage != InstallStage::Finished,
        ensures
            final(self).layout == old(self).layout,
            final(self).stage == next_stage(old(self).stage, event, old(self).layout.force, old(self).published@, old(self).replacing),
            final(self).replacing == if old(self).stage == InstallStage::CheckVersionDir {
                observed(event) && old(self).layout.force
            } else {
                old(self).replacing
            },
            final(self).published@ == (match event {
                InstallEvent::Fetched { text } => if old(self).stage == InstallStage::FetchingChecksum {
                    text@
                } else {
                    old(self).published@
                },
                _ => old(self).published@,
            }),
            stage_rank(final(self).stage) > stage_rank(old(self).stage),
            final(self).stage != InstallStage::Finished ==> stage_action(final(self).layout, final(self).stage, res),
            final(self).stage == InstallStage::Finished ==> (res matches InstallAction::Finish { result }
                && finish_outcome(old(self).layout, old(self).stage, event, old(self).published@, result)),
            // an installed version is refused, without fetching anything, unless
            // reinstalling is forced
            (old(self).stage == InstallStage::CheckVersionDir && observed(event) && !old(self).layout.force) ==> (
                res matches InstallAction::Finish { result: Err(GvmError::AlreadyInstalled { version }) }
                && version@ == old(self).layout.version@),
            // the installation goes on past the archive only once its digest
            // was found equal to the published one
            (stage_rank(old(self).stage) <= stage_rank(InstallStage::ReadingArchive)
                && stage_rank(final(self).stage) > stage_rank(InstallStage::ReadingArchive)
                && final(self).stage != InstallStage::Finished) ==> (old(self).stage == InstallStage::ReadingArchive
                && digest_ok(old(self).published@, event)),
            // an existing installation is removed only when it is being
            // replaced (found installed, reinstalling forced), and only after
            // the archive's digest was checked
            final(self).stage == InstallStage::RemovingVersionDir ==> (old(self).stage == InstallStage::ReadingArchive
                && digest_ok(old(self).published@, event) && old(self).replacing),
            // success is reported only once the Go executable was seen in place
            (res matches InstallAction::Finish { result: Ok(_) }) ==> (old(self).stage == InstallStage::CheckBinary
                && observed(event)),
    {
        let exists = match &event {
            InstallEvent::Exists(b) => *b,
            _ => false,
        };
        let is_failure = match &event {
            InstallEvent::Failed { .. } => true,
            _ => false,
        };
        let fetched = match &event {
            InstallEvent::Fetched { .. } => true,
            _ => false,
        };
        let digest_good = match &event {
            InstallEvent::Read { data } => digest_matches(self.published.as_str(), data.as_slice()),
            _ => false,
        };
        let force = self.layout.force;
        let next = match self.stage {
            InstallStage::CheckArchive => if exists { InstallStage::CheckVersionDir } else { InstallStage::Downloading },
            InstallStage::Downloading => if is_failure { InstallStage::Finished } else { InstallStage::CheckVersionDir },
            InstallStage::CheckVersionDir => if exists && !force {
                InstallStage::Finished
            } else {
                InstallStage::FetchingChecksum
            },
            InstallStage::FetchingChecksum => if fetched { InstallStage::ReadingArchive } else { InstallStage::Finished },
            InstallStage::ReadingArchive => if !digest_good {
                InstallStage::Finished
            } else if self.replacing {
                InstallStage::RemovingVersionDir
            } else {
                InstallStage::CheckTempDir
            },
            InstallStage::RemovingVersionDir => if is_failure { InstallStage::Finished } else { InstallStage::CheckTempDir },
            InstallStage::CheckTempDir => if exists { InstallStage::RemovingTempDir } else { InstallStage::CreatingTempDir },
            InstallStage::RemovingTempDir => if is_failure { InstallStage::Finished } else { InstallStage::CreatingTempDir },
            InstallStage::CreatingTempDir => if is_failure { InstallStage::Finished } else { InstallStage::Extracting },
            InstallStage::Extracting => if is_failure { InstallStage::Finished } else { InstallStage::CheckExtracted },
            InstallStage::CheckExtracted => if exists { InstallStage::Renaming } else { InstallStage::DiscardingTemp },
            InstallStage::DiscardingTemp => InstallStage::Finished,
            InstallStage::Renaming => if is_failure { InstallStage::Finished } else { InstallStage::RemovingTemp },
            InstallStage::RemovingTemp => if is_failure { InstallStage::Finished } else { InstallStage::CheckBinary },
            _ => InstallStage::Finished,
        };
        let replacing = if self.stage == InstallStage::CheckVersionDir { exists && force } else { self.replacing };
        if next == InstallStage::Finished {
            let result = self.outcome(&event);
            self.replacing = replacing;
            self.stage = next;
            InstallAction::Finish { result }
        } else {
            let action = self.action_of(next);
            self.replacing = replacing;
            if self.stage == InstallStage::FetchingChecksum {
                if let InstallEvent::Fetched { text } = event {
                    self.published = text;
                }
            }
            self.stage = next;
            action
        }
    }
}

/// Law: a forced reinstall of an installed version, with the archive cached,
/// its digest equal to the published one and every later action
/// succeeding, runs every step of an installation: after the old version
/// directory is removed it checks, creates and extracts into the temporary
/// directory, moves the extracted Go tree to the version's directory,
/// removes the temporary directory, checks the Go executable, and ends in
/// success with the version's directory as the installed path.
pub proof fn lemma_forced_reinstall_succeeds(
    l: InstallLayout,
    version: Seq<char>,
    install_dir: Seq<char>,
    download_dir: Seq<char>,
    rust_os: Seq<char>,
    rust_arch: Seq<char>,
    fetched: InstallEvent,
    read: InstallEvent,
    text: Seq<char>,
)
    requires
        is_layout(l, version, install_dir, download_dir, true, rust_os, rust_arch),
        fetched matches InstallEvent::Fetched { text: t } && t@ == text,
        read matches InstallEvent::Read { data } && published_digest(text) == sha256_hex_of(data@),
    ensures
        // the cached archive and the installed version are found
        next_stage(InstallStage::CheckArchive, InstallEvent::Exists(true), true, Seq::empty(), false)
            == InstallStage::CheckVersionDir,
        next_stage(InstallStage::CheckVersionDir, InstallEvent::Exists(true), true, Seq::empty(), false)
            == InstallStage::FetchingChecksum,
        // the checksum is fetched and the archive's digest matches it
        next_stage(InstallStage::FetchingChecksum, fetched, true, Seq::empty(), true) == InstallStage::ReadingArchive,
        next_stage(InstallStage::ReadingArchive, read, true, text, true) == InstallStage::RemovingVersionDir,
        // the old version goes, then the archive is extracted anew
        next_stage(InstallStage::RemovingVersionDir, InstallEvent::Completed, true, text, true) == InstallStage::CheckTempDir,
        next_stage(InstallStage::CheckTempDir, InstallEvent::Exists(false), true, text, true) == InstallStage::CreatingTempDir,
        next_stage(InstallStage::CreatingTempDir, InstallEvent::Completed, true, text, true) == InstallStage::Extracting,
        next_stage(InstallStage::Extracting, InstallEvent::Completed, true, text, true) == InstallStage::CheckExtracted,
        next_stage(InstallStage::CheckExtracted, InstallEvent::Exists(true), true, text, true) == InstallStage::Renaming,
        next_stage(InstallStage::Renaming, InstallEvent::Completed, true, text, true) == InstallStage::RemovingTemp,
        next_stage(InstallStage::RemovingTemp, InstallEvent::Completed, true, text, true) == InstallStage::CheckBinary,
        next_stage(InstallStage::CheckBinary, InstallEvent::Exists(true), true, text, true) == InstallStage::Finished,
        // what those actions work on
        forall|a: InstallAction| stage_action(l, InstallStage::RemovingVersionDir, a)
            ==> (a matches InstallAction::RemoveDirAll { path } && path@ == path_join(install_dir, version)),
        forall|a: InstallAction| stage_action(l, InstallStage::CheckTempDir, a)
            ==> (a matches InstallAction::CheckExists { path } && path@ == path_join(install_dir, version + "_temp"@)),
        forall|a: InstallAction| stage_action(l, InstallStage::CreatingTempDir, a)
            ==> (a matches InstallAction::CreateDirAll { path } && path@ == path_join(install_dir, version + "_temp"@)),
        forall|a: InstallAction| stage_action(l, InstallStage::Extracting, a)
            ==> (a matches InstallAction::Extract { archive, destination } && archive@ == l.archive_path@
                && destination@ == path_join(install_dir, version + "_temp"@)),
        forall|a: InstallAction| stage_action(l, InstallStage::Renaming, a)
            ==> (a matches InstallAction::Rename { from, to }
                && from@ == path_join(path_join(install_dir, version + "_temp"@), "go"@)
                && to@ == path_join(install_dir, version)),
        // and the installation succeeds with the version's directory
        forall|r: Result<VersionInfo, GvmError>| finish_outcome(l, InstallStage::CheckBinary, InstallEvent::Exists(true), text, r)
            ==> (r matches Ok(info) && info.version@ == version && info.path@ == path_join(install_dir, version)
                && info.is_installed),
{
}

/// Law: once an existing version directory was removed, the next action
/// concerns the temporary extraction directory, whatever else holds: the
/// archive is always extracted before the Go executable is checked.
pub proof fn lemma_removal_leads_to_extraction(e: InstallEvent, force: bool, published: Seq<char>, replacing: bool)
    requires
        !(e is Failed),
    ensures
        next_stage(InstallStage::RemovingVersionDir, e, force, published, replacing) == InstallStage::CheckTempDir,
{
}

/// Law: on a 64-bit ARM machine the installation fetches the `arm64` build:
/// its archive is `go<version>.<system>-arm64.<extension>`, downloaded from
/// go.dev under that name.
pub proof fn lemma_arm64_install_layout(
    l: InstallLayout,
    version: Seq<char>,
    install_dir: Seq<char>,
    download_dir: Seq<char>,
    force: bool,
    rust_os: Seq<char>,
)
    requires
        is_layout(l, version, install_dir, download_dir, force, rust_os, "aarch64"@),
    ensures
        l.filename@ == "go"@ + version + "."@ + go_os_name(rust_os) + "-arm64."@ + archive_extension(rust_os),
        l.download_url@ == "https://go.dev/dl/go"@ + version + "."@ + go_os_name(rust_os) + "-arm64."@
            + archive_extension(rust_os),
{
    crate::platform::lemma_go_arch_names("aarch64"@);
    reveal_strlit("-");
    reveal_strlit(".");
    reveal_strlit("-arm64.");
    reveal_strlit("arm64");
    reveal_strlit("go");
    reveal_strlit("https://go.dev/dl/");
    reveal_strlit("https://go.dev/dl/go");
    assert(l.filename@ =~= "go"@ + version + "."@ + go_os_name(rust_os) + "-arm64."@ + archive_extension(rust_os));
    assert(l.download_url@ =~= "https://go.dev/dl/go"@ + version + "."@ + go_os_name(rust_os) + "-arm64."@
        + archive_extension(rust_os));
}

} // verus!
