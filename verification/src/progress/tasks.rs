//! Installation tasks: what a plan is made of, how tasks are built, and the
//! order in which a plan's tasks can run.
//!
//! Durations are whole seconds (or milliseconds where named so) and progress
//! weights are in thousandths of the whole.
use vstd::prelude::*;
use crate::progress::types::TaskId;
use crate::text::str_equal;

verus! {

/// Complete installation plan with tasks, dependencies, and rollback strategy
#[derive(Debug, Clone)]
pub struct DetailedInstallPlan {
    pub version: String,
    pub tasks: Vec<InstallTask>,
    pub dependencies: Vec<TaskDependency>,
    pub rollback_plan: Vec<RollbackStep>,
    pub estimated_total_secs: u64,
}

/// Individual installation task with subtasks and validation
#[derive(Debug, Clone)]
pub struct InstallTask {
    pub id: TaskId,
    pub name: String,
    pub description: String,
    pub estimated_duration_secs: u64,
    pub prerequisites: Vec<TaskId>,
    pub subtasks: Vec<SubTask>,
    pub validation_criteria: Vec<ValidationCheck>,
    pub retry_policy: RetryPolicy,
    /// Progress weight for the task, in thousandths
    pub progress_weight_permille: u32,
    /// Pre-execution validations
    pub pre_validations: Vec<ValidationCheck>,
    /// Post-execution validations
    pub post_validations: Vec<ValidationCheck>,
    /// Main action to execute
    pub action: TaskAction,
    /// Steps that undo the task
    pub rollback_steps: Vec<RollbackStep>,
}

/// Individual subtask within a larger task
#[derive(Debug, Clone)]
pub struct SubTask {
    pub name: String,
    pub action: TaskAction,
    /// Weight in overall task progress, in thousandths
    pub progress_weight_permille: u32,
    pub can_retry: bool,
    pub max_retries: u8,
    pub timeout_secs: Option<u64>,
}

/// Specific actions that can be performed during installation
#[derive(Debug, Clone)]
pub enum TaskAction {
    /// Download a file from a URL
    FileDownload { url: String, destination: String, checksum: Option<String>, expected_size: Option<u64> },
    /// Create a directory with optional permissions
    DirectoryCreate { path: String, permissions: Option<u32>, create_parents: bool },
    /// Extract an archive to a destination
    ArchiveExtract { source: String, destination: String, format: ArchiveFormat, strip_components: Option<u32> },
    /// Move a file or directory
    FileMove { source: String, destination: String, create_parents: bool },
    /// Create a symbolic link
    SymlinkCreate { target: String, link: String },
    /// Set file or directory permissions
    PermissionSet { path: String, permissions: u32, recursive: bool },
    /// Run a verification check
    Verification { check: ValidationCheck },
    /// Execute a custom command
    Command {
        program: String,
        args: Vec<String>,
        working_dir: Option<String>,
        environment: Option<Vec<(String, String)>>,
    },
    /// Clean up temporary files
    Cleanup { paths: Vec<String>, ignore_errors: bool },
}

/// Archive format types
#[derive(Debug, Clone, PartialEq, Eq)]
pub enum ArchiveFormat {
    Zip,
    TarGz,
    TarXz,
    Tar,
}

/// Validation checks to ensure installation correctness
#[derive(Debug, Clone)]
pub enum ValidationCheck {
    /// Check if a path exists
    PathExists { path: String },
    /// Check if a path is writable
    PathWritable { path: String },
    /// Check file size is within expected range
    FileSize { path: String, min_size: Option<u64>, max_size: Option<u64> },
    /// Verify file integrity with checksum
    FileIntegrity { file: String, expected_checksum: String, algorithm: ChecksumAlgorithm },
    /// Check if an executable works
    ExecutableWorks { path: String, args: Vec<String>, expected_exit_code: Option<i32> },
    /// Verify Go version matches expected
    GoVersionMatch { go_binary: String, expected_version: String },
    /// Check installation completeness
    InstallationComplete { install_dir: String, expected_files: Vec<String> },
    /// Verify disk space availability
    DiskSpace { path: String, required_bytes: u64 },
    /// Validate version format
    VersionFormat { version: String },
    /// Check for existing installation
    ExistingInstallation { version: String, install_dir: String, force: bool },
}

/// Checksum algorithms
#[derive(Debug, Clone, PartialEq, Eq)]
pub enum ChecksumAlgorithm {
    Sha256,
    Sha1,
    Md5,
}

/// Task dependency relationship
#[derive(Debug, Clone)]
pub struct TaskDependency {
    pub task_id: TaskId,
    pub depends_on: TaskId,
    pub dependency_type: DependencyType,
}

/// Type of dependency between tasks
#[derive(Debug, Clone, PartialEq, Eq)]
pub enum DependencyType {
    /// Task must complete before dependent task can start
    Sequential,
    /// Task output is required for dependent task
    DataDependency,
    /// Tasks share resources and should not run concurrently
    ResourceConflict,
}

/// Rollback operations for cleaning up failed installations
#[derive(Debug, Clone)]
pub enum RollbackStep {
    /// Remove a file
    RemoveFile { path: String },
    /// Remove a directory and its contents
    RemoveDirectory { path: String },
    /// Restore a file from backup
    RestoreFile { backup_path: String, original_path: String },
    /// Remove a symbolic link
    RemoveSymlink { path: String },
    /// Run a custom cleanup command
    CustomCleanup { program: String, args: Vec<String> },
}

/// Retry policy for handling transient failures
#[derive(Debug, Clone)]
pub struct RetryPolicy {
    pub max_attempts: u8,
    pub base_delay_ms: u64,
    pub max_delay_ms: u64,
    /// Growth of the delay between attempts, in hundredths
    pub backoff_multiplier_percent: u32,
    pub retryable_errors: Vec<ErrorType>,
}

/// Types of errors that can be retried
#[derive(Debug, Clone, PartialEq, Eq)]
pub enum ErrorType {
    NetworkError,
    FileSystemError,
    TemporaryFileSystemError,
    ResourceTemporarilyUnavailable,
    ChecksumMismatch,
    ExtractionError,
    PermissionDenied,
    InvalidInput,
}

/// The default retry policy: three attempts, one second growing to at most
/// thirty, doubling, for network, temporary file-system and busy-resource
/// errors.
pub open spec fn is_default_retry(p: RetryPolicy) -> bool {
    &&& p.max_attempts == 3
    &&& p.base_delay_ms == 1000
    &&& p.max_delay_ms == 30000
    &&& p.backoff_multiplier_percent == 200
    &&& p.retryable_errors@ == seq![
        ErrorType::NetworkError,
        ErrorType::TemporaryFileSystemError,
        ErrorType::ResourceTemporarilyUnavailable,
    ]
}

impl Default for RetryPolicy {
    fn default() -> (res: Self)
        ensures
            is_default_retry(res),
    {
        let mut retryable_errors = Vec::new();
        retryable_errors.push(ErrorType::NetworkError);
        retryable_errors.push(ErrorType::TemporaryFileSystemError);
        retryable_errors.push(ErrorType::ResourceTemporarilyUnavailable);
        assert(retryable_errors@ =~= seq![
            ErrorType::NetworkError,
            ErrorType::TemporaryFileSystemError,
            ErrorType::ResourceTemporarilyUnavailable,
        ]);
        RetryPolicy {
            max_attempts: 3,
            base_delay_ms: 1000,
            max_delay_ms: 30000,
            backoff_multiplier_percent: 200,
            retryable_errors,
        }
    }
}

/// How an action is described.
pub open spec fn action_text(action: TaskAction) -> Seq<char> {
    match action {
        TaskAction::FileDownload { url, .. } => "Download from "@ + url@,
        TaskAction::DirectoryCreate { path, .. } => "Create directory "@ + path@,
        TaskAction::ArchiveExtract { source, .. } => "Extract "@ + source@,
        TaskAction::FileMove { source, destination, .. } => "Move "@ + source@ + " to "@ + destination@,
        TaskAction::SymlinkCreate { target, link } => "Link "@ + link@ + " to "@ + target@,
        TaskAction::PermissionSet { path, .. } => "Set permissions on "@ + path@,
        TaskAction::Verification { .. } => "Run verification"@,
        TaskAction::Command { program, .. } => "Run command "@ + program@,
        TaskAction::Cleanup { .. } => "Cleanup files"@,
    }
}

impl InstallTask {
    /// A task with the given id, name and description; thirty seconds, full
    /// weight, the default retry policy, and a check that `/` exists as its
    /// action; no prerequisites, subtasks, validations or rollback steps.
    pub fn new(id: &str, name: &str, description: &str) -> (res: Self)
        ensures
            res.id.0@ == id@,
            res.name@ == name@,
            res.description@ == description@,
            res.estimated_duration_secs == 30,
            res.prerequisites@.len() == 0,
            res.subtasks@.len() == 0,
            res.validation_criteria@.len() == 0,
            is_default_retry(res.retry_policy),
            res.progress_weight_permille == 1000,
            res.pre_validations@.len() == 0,
            res.post_validations@.len() == 0,
            res.action matches TaskAction::Verification { check: ValidationCheck::PathExists { path } } && path@ == "/"@,
            res.rollback_steps@.len() == 0,
    {
        InstallTask {
            id: TaskId::new(id),
            name: String::from_str(name),
            description: String::from_str(description),
            estimated_duration_secs: 30,
            prerequisites: Vec::new(),
            subtasks: Vec::new(),
            validation_criteria: Vec::new(),
            retry_policy: RetryPolicy::default(),
            progress_weight_permille: 1000,
            pre_validations: Vec::new(),
            post_validations: Vec::new(),
            action: TaskAction::Verification { check: ValidationCheck::PathExists { path: String::from_str("/") } },
            rollback_steps: Vec::new(),
        }
    }

    /// Add a prerequisite task
    pub fn depends_on(self, task_id: TaskId) -> (res: Self)
        ensures
            res == (InstallTask { prerequisites: res.prerequisites, ..self }),
            res.prerequisites@ == self.prerequisites@.push(task_id),
    {
        let mut t = self;
        t.prerequisites.push(task_id);
        t
    }

    /// Add a subtask
    pub fn with_subtask(self, subtask: SubTask) -> (res: Self)
        ensures
            res == (InstallTask { subtasks: res.subtasks, ..self }),
            res.subtasks@ == self.subtasks@.push(subtask),
    {
        let mut t = self;
        t.subtasks.push(subtask);
        t
    }

    /// Add validation criteria
    pub fn with_validation(self, validation: ValidationCheck) -> (res: Self)
        ensures
            res == (InstallTask { validation_criteria: res.validation_criteria, ..self }),
            res.validation_criteria@ == self.validation_criteria@.push(validation),
    {
        let mut t = self;
        t.validation_criteria.push(validation);
        t
    }

    /// Set estimated duration
    pub fn with_duration(self, secs: u64) -> (res: Self)
        ensures
            res == (InstallTask { estimated_duration_secs: secs, ..self }),
    {
        let mut t = self;
        t.estimated_duration_secs = secs;
        t
    }

    /// Set progress weight
    pub fn with_progress_weight(self, permille: u32) -> (res: Self)
        ensures
            res == (InstallTask { progress_weight_permille: permille, ..self }),
    {
        let mut t = self;
        t.progress_weight_permille = permille;
        t
    }

    /// Set main action
    pub fn with_action(self, action: TaskAction) -> (res: Self)
        ensures
            res == (InstallTask { action: action, ..self }),
    {
        let mut t = self;
        t.action = action;
        t
    }

    /// Add pre-validation
    pub fn with_pre_validation(self, validation: ValidationCheck) -> (res: Self)
        ensures
            res == (InstallTask { pre_validations: res.pre_validations, ..self }),
            res.pre_validations@ == self.pre_validations@.push(validation),
    {
        let mut t = self;
        t.pre_validations.push(validation);
        t
    }

    /// Add post-validation
    pub fn with_post_validation(self, validation: ValidationCheck) -> (res: Self)
        ensures
            res == (InstallTask { post_validations: res.post_validations, ..self }),
            res.post_validations@ == self.post_validations@.push(validation),
    {
        let mut t = self;
        t.post_validations.push(validation);
        t
    }

    /// Add rollback step
    pub fn with_rollback_step(self, step: RollbackStep) -> (res: Self)
        ensures
            res == (InstallTask { rollback_steps: res.rollback_steps, ..self }),
            res.rollback_steps@ == self.rollback_steps@.push(step),
    {
        let mut t = self;
        t.rollback_steps.push(step);
        t
    }

    /// Get action description for display
    pub fn action_description(&self) -> (res: String)
        ensures
            res@ == action_text(self.action),
    {
        match &self.action {
            TaskAction::FileDownload { url, .. } => {
                let mut s = String::from_str("Download from ");
                s.append(url.as_str());
                s
            },
            TaskAction::DirectoryCreate { path, .. } => {
                let mut s = String::from_str("Create directory ");
                s.append(path.as_str());
                s
            },
            TaskAction::ArchiveExtract { source, .. } => {
                let mut s = String::from_str("Extract ");
                s.append(source.as_str());
                s
            },
            TaskAction::FileMove { source, destination, .. } => {
                let mut s = String::from_str("Move ");
                s.append(source.as_str());
                s.append(" to ");
                s.append(destination.as_str());
                s
            },
            TaskAction::SymlinkCreate { target, link } => {
                let mut s = String::from_str("Link ");
                s.append(link.as_str());
                s.append(" to ");
                s.append(target.as_str());
                s
            },
            TaskAction::PermissionSet { path, .. } => {
                let mut s = String::from_str("Set permissions on ");
                s.append(path.as_str());
                s
            },
            TaskAction::Verification { .. } => String::from_str("Run verification"),
            TaskAction::Command { program, .. } => {
                let mut s = String::from_str("Run command ");
                s.append(program.as_str());
                s
            },
            TaskAction::Cleanup { .. } => String::from_str("Cleanup files"),
        }
    }
}

impl SubTask {
    /// A subtask with full weight, three retries and no timeout.
    pub fn new(name: &str, action: TaskAction) -> (res: Self)
        ensures
            res.name@ == name@,
            res.action == action,
            res.progress_weight_permille == 1000,
            res.can_retry,
            res.max_retries == 3,
            res.timeout_secs is None,
    {
        SubTask {
            name: String::from_str(name),
            action,
            progress_weight_permille: 1000,
            can_retry: true,
            max_retries: 3,
            timeout_secs: None,
        }
    }

    pub fn with_weight(self, permille: u32) -> (res: Self)
        ensures
            res == (SubTask { progress_weight_permille: permille, ..self }),
    {
        let mut s = self;
        s.progress_weight_permille = permille;
        s
    }

    pub fn no_retry(self) -> (res: Self)
        ensures
            res == (SubTask { can_retry: false, max_retries: 0, ..self }),
    {
        let mut s = self;
        s.can_retry = false;
        s.max_retries = 0;
        s
    }

    pub fn with_timeout(self, secs: u64) -> (res: Self)
        ensures
            res == (SubTask { timeout_secs: Some(secs), ..self }),
    {
        let mut s = self;
        s.timeout_secs = Some(secs);
        s
    }
}

/// ASCII lower case of a character.
pub open spec fn ascii_lower(c: char) -> char {
    if 'A' <= c <= 'Z' { ((c as u32) + 32) as char } else { c }
}

/// Whether `s` equals `lit` ignoring ASCII case (`lit` in lower case).
pub open spec fn eq_ignore_ascii_case(s: Seq<char>, lit: Seq<char>) -> bool {
    s.len() == lit.len() && forall|i: int| 0 <= i < s.len() ==> ascii_lower(#[trigger] s[i]) == lit[i]
}

/// The archive format of an extension, whatever its case.
pub open spec fn format_of_extension(ext: Seq<char>) -> Option<ArchiveFormat> {
    if eq_ignore_ascii_case(ext, "zip"@) {
        Some(ArchiveFormat::Zip)
    } else if eq_ignore_ascii_case(ext, "tar.gz"@) || eq_ignore_ascii_case(ext, "tgz"@) {
        Some(ArchiveFormat::TarGz)
    } else if eq_ignore_ascii_case(ext, "tar.xz"@) || eq_ignore_ascii_case(ext, "txz"@) {
        Some(ArchiveFormat::TarXz)
    } else if eq_ignore_ascii_case(ext, "tar"@) {
        Some(ArchiveFormat::Tar)
    } else {
        None
    }
}

/// Whether `s` equals the lower-case `lit` ignoring ASCII case.
fn equals_ignore_case(s: &str, lit: &str) -> (res: bool)
    ensures
        res == eq_ignore_ascii_case(s@, lit@),
{
    let n = s.unicode_len();
    if n != lit.unicode_len() {
        return false;
    }
    let mut i: usize = 0;
    while i < n
        invariant
            n == s@.len(),
            n == lit@.len(),
            i <= n,
            forall|j: int| 0 <= j < i ==> ascii_lower(#[trigger] s@[j]) == lit@[j],
        decreases n - i,
    {
        let c = s.get_char(i);
        let lower = if 'A' <= c && c <= 'Z' {
            ((c as u32) + 32) as u8 as char
        } else {
            c
        };
        assert(lower == ascii_lower(c));
        if lower != lit.get_char(i) {
            return false;
        }
        i = i + 1;
    }
    true
}

impl ArchiveFormat {
    /// The archive format of a file extension (`zip`, `tar.gz`/`tgz`,
    /// `tar.xz`/`txz`, `tar`), whatever its case.
    pub fn from_extension(ext: &str) -> (res: Option<Self>)
        ensures
            res == format_of_extension(ext@),
    {
        if equals_ignore_case(ext, "zip") {
            Some(ArchiveFormat::Zip)
        } else if equals_ignore_case(ext, "tar.gz") || equals_ignore_case(ext, "tgz") {
            Some(ArchiveFormat::TarGz)
        } else if equals_ignore_case(ext, "tar.xz") || equals_ignore_case(ext, "txz") {
            Some(ArchiveFormat::TarXz)
        } else if equals_ignore_case(ext, "tar") {
            Some(ArchiveFormat::Tar)
        } else {
            None
        }
    }
}

/// Platform information for installation planning
#[derive(Debug, Clone)]
pub struct PlatformInfo {
    pub os: String,
    pub arch: String,
    pub extension: String,
}

/// The operating system and architecture that the planner assumes for the
/// target that Rust names `target_os` and `target_arch`.
pub open spec fn planner_os_arch(target_os: Seq<char>, target_arch: Seq<char>) -> (Seq<char>, Seq<char>) {
    let x64 = target_arch == "x86_64"@;
    if target_os == "windows"@ {
        ("windows"@, if x64 { "amd64"@ } else { "386"@ })
    } else if target_os == "macos"@ {
        ("darwin"@, if x64 { "amd64"@ } else { "arm64"@ })
    } else {
        ("linux"@, if x64 { "amd64"@ } else { "386"@ })
    }
}

impl PlatformInfo {
    /// The platform of the compilation target `target_os`/`target_arch`.
    pub fn detect(target_os: &str, target_arch: &str) -> (res: Self)
        ensures
            (res.os@, res.arch@) == planner_os_arch(target_os@, target_arch@),
            res.extension@ == (if target_os@ == "windows"@ { "zip"@ } else { "tar.gz"@ }),
    {
        let x64 = str_equal(target_arch, "x86_64");
        let (os, arch) = if str_equal(target_os, "windows") {
            ("windows", if x64 { "amd64" } else { "386" })
        } else if str_equal(target_os, "macos") {
            ("darwin", if x64 { "amd64" } else { "arm64" })
        } else {
            ("linux", if x64 { "amd64" } else { "386" })
        };
        let extension = if str_equal(target_os, "windows") { "zip" } else { "tar.gz" };
        PlatformInfo {
            os: String::from_str(os),
            arch: String::from_str(arch),
            extension: String::from_str(extension),
        }
    }

    /// The Go archive file name.
    pub fn archive_filename(&self, version: &str) -> (res: String)
        ensures
            res@ == crate::platform::archive_name(version@, self.os@, self.arch@, self.extension@),
    {
        let mut s = String::from_str("go");
        s.append(version);
        s.append(".");
        s.append(self.os.as_str());
        s.append("-");
        s.append(self.arch.as_str());
        s.append(".");
        s.append(self.extension.as_str());
        s
    }
}

} // verus!
