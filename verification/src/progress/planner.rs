//! Installation planning: the tasks that installing a Go version takes, the
//! order between them, and how to undo them.
use vstd::prelude::*;
use crate::error::GvmError;
use crate::paths::{join, path_join};
use crate::platform::archive_name;
use crate::progress::tasks::{
    ArchiveFormat, DependencyType, DetailedInstallPlan, InstallTask, PlatformInfo, RollbackStep,
    SubTask, TaskAction, TaskDependency, ValidationCheck, format_of_extension, is_default_retry,
};
use crate::progress::schedule::{is_execution_order, lemma_listed_order_runs, sum_durations, total_secs};
use crate::progress::types::TaskId;
use crate::text::{starts_with, str_equal};

verus! {

/// The identifiers of a list of task identifiers.
pub open spec fn id_texts(ids: Seq<TaskId>) -> Seq<Seq<char>> {
    ids.map_values(|t: TaskId| t.0@)
}

/// The identifiers of a list of tasks.
pub open spec fn task_ids(tasks: Seq<InstallTask>) -> Seq<Seq<char>> {
    tasks.map_values(|t: InstallTask| t.id.0@)
}

/// A task's identity, its estimate and prerequisites; every other part left
/// as `InstallTask::new` sets it, but for subtasks and validations.
pub open spec fn task_header(
    t: InstallTask,
    id: Seq<char>,
    name: Seq<char>,
    description: Seq<char>,
    secs: nat,
    prerequisites: Seq<Seq<char>>,
) -> bool {
    &&& t.id.0@ == id
    &&& t.name@ == name
    &&& t.description@ == description
    &&& t.estimated_duration_secs == secs
    &&& id_texts(t.prerequisites@) == prerequisites
    &&& is_default_retry(t.retry_policy)
    &&& t.action matches TaskAction::Verification { check: ValidationCheck::PathExists { path } } && path@ == "/"@
    &&& t.progress_weight_permille == 1000
    &&& t.pre_validations@.len() == 0
    &&& t.post_validations@.len() == 0
    &&& t.rollback_steps@.len() == 0
}

/// A subtask's name, weight, retries and timeout.
pub open spec fn subtask_is(s: SubTask, name: Seq<char>, permille: nat, retry: bool, timeout: Option<u64>) -> bool {
    &&& s.name@ == name
    &&& s.progress_weight_permille == permille
    &&& s.can_retry == retry
    &&& s.max_retries == (if retry { 3u8 } else { 0u8 })
    &&& s.timeout_secs == timeout
}

/// The disk space that installing a version is expected to take: 500 MiB,
/// 100 MiB more for versions starting with `1.2`.
pub open spec fn required_space(version: Seq<char>) -> nat {
    if version.len() >= 3 && version.subrange(0, 3) == "1.2"@ {
        629145600
    } else {
        524288000
    }
}

/// The checks made before installing.
pub open spec fn is_precheck_task(
    t: InstallTask,
    version: Seq<char>,
    install_dir: Seq<char>,
    cache_dir: Seq<char>,
    force: bool,
) -> bool {
    &&& task_header(t, "precheck"@, "Pre-installation Checks"@, "Validate environment and requirements"@, 5, seq![])
    &&& t.subtasks@.len() == 3
    &&& subtask_is(t.subtasks@[0], "Validate version format"@, 200, false, None)
    &&& t.subtasks@[0].action matches TaskAction::Verification { check: ValidationCheck::VersionFormat { version: v } }
        && v@ == version
    &&& subtask_is(t.subtasks@[1], "Check disk space"@, 300, true, None)
    &&& t.subtasks@[1].action matches TaskAction::Verification { check: ValidationCheck::DiskSpace { path, required_bytes } }
        && path@ == install_dir && required_bytes == required_space(version)
    &&& subtask_is(t.subtasks@[2], "Check existing installation"@, 500, false, None)
    &&& t.subtasks@[2].action matches TaskAction::Verification {
        check: ValidationCheck::ExistingInstallation { version: v, install_dir: d, force: f },
    } && v@ == version && d@ == install_dir && f == force
    &&& t.validation_criteria@.len() == 2
    &&& t.validation_criteria@[0] matches ValidationCheck::PathWritable { path } && path@ == install_dir
    &&& t.validation_criteria@[1] matches ValidationCheck::PathWritable { path } && path@ == cache_dir
}

/// A directory creation with mode 0o755 and its parents.
pub open spec fn creates_dir(a: TaskAction, dir: Seq<char>) -> bool {
    a matches TaskAction::DirectoryCreate { path, permissions, create_parents } && path@ == dir
        && permissions == Some(0o755u32) && create_parents
}

/// The creation of the directories.
pub open spec fn is_directory_setup_task(t: InstallTask, install_dir: Seq<char>, cache_dir: Seq<char>, version: Seq<char>) -> bool {
    &&& task_header(t, "create_dirs"@, "Directory Setup"@, "Create necessary directories"@, 2, seq!["precheck"@])
    &&& t.subtasks@.len() == 3
    &&& subtask_is(t.subtasks@[0], "Create install directory"@, 400, true, None)
    &&& creates_dir(t.subtasks@[0].action, install_dir)
    &&& subtask_is(t.subtasks@[1], "Create cache directory"@, 400, true, None)
    &&& creates_dir(t.subtasks@[1].action, cache_dir)
    &&& subtask_is(t.subtasks@[2], "Create version-specific directory"@, 200, true, None)
    &&& creates_dir(t.subtasks@[2].action, path_join(install_dir, version))
    &&& t.validation_criteria@.len() == 3
    &&& t.validation_criteria@[0] matches ValidationCheck::PathExists { path } && path@ == install_dir
    &&& t.validation_criteria@[1] matches ValidationCheck::PathExists { path } && path@ == cache_dir
    &&& t.validation_criteria@[2] matches ValidationCheck::PathWritable { path } && path@ == path_join(install_dir, version)
}

/// The download of the archive into the cache.
pub open spec fn is_download_task(t: InstallTask, cached_file: Seq<char>, archive: Seq<char>) -> bool {
    &&& task_header(t, "download"@, "Download Go Archive"@, "Download "@ + archive + " from official repository"@, 120, seq!["create_dirs"@])
    &&& t.subtasks@.len() == 2
    &&& subtask_is(t.subtasks@[0], "Download archive"@, 950, true, Some(300u64))
    &&& t.subtasks@[0].action matches TaskAction::FileDownload { url, destination, checksum, expected_size }
        && url@ == "https://go.dev/dl/"@ + archive && destination@ == cached_file && checksum is None
        && expected_size is None
    &&& subtask_is(t.subtasks@[1], "Verify download integrity"@, 50, true, None)
    &&& t.subtasks@[1].action matches TaskAction::Verification { check: ValidationCheck::FileSize { path, min_size, max_size } }
        && path@ == cached_file && min_size == Some(52428800u64) && max_size is None
    &&& t.validation_criteria@.len() == 1
    &&& t.validation_criteria@[0] matches ValidationCheck::PathExists { path } && path@ == cached_file
}

/// The name of the Go executable on the planned system.
pub open spec fn go_exe_name(os: Seq<char>) -> Seq<char> {
    if os == "windows"@ { "go.exe"@ } else { "go"@ }
}

/// The extraction of the archive into the version's directory.
pub open spec fn is_extraction_task(
    t: InstallTask,
    version: Seq<char>,
    archive: Seq<char>,
    install_dir: Seq<char>,
    archive_exists: bool,
    format: ArchiveFormat,
    os: Seq<char>,
) -> bool {
    let version_dir = path_join(install_dir, version);
    &&& task_header(t, "extract"@, "Extract Archive"@, "Extract Go archive to installation directory"@, 30,
        seq![if archive_exists { "create_dirs"@ } else { "download"@ }])
    &&& t.subtasks@.len() == 2
    &&& subtask_is(t.subtasks@[0], "Extract archive"@, 900, true, None)
    &&& t.subtasks@[0].action matches TaskAction::ArchiveExtract { source, destination, format: f, strip_components }
        && source@ == archive && destination@ == version_dir && f == format && strip_components == Some(1u32)
    &&& subtask_is(t.subtasks@[1], "Set executable permissions"@, 100, true, None)
    &&& t.subtasks@[1].action matches TaskAction::PermissionSet { path, permissions, recursive }
        && path@ == path_join(version_dir, "bin"@) && permissions == 0o755u32 && recursive
    &&& t.validation_criteria@.len() == 3
    &&& t.validation_criteria@[0] matches ValidationCheck::PathExists { path }
        && path@ == path_join(path_join(version_dir, "bin"@), go_exe_name(os))
    &&& t.validation_criteria@[1] matches ValidationCheck::PathExists { path } && path@ == path_join(version_dir, "src"@)
    &&& t.validation_criteria@[2] matches ValidationCheck::PathExists { path } && path@ == path_join(version_dir, "pkg"@)
}

/// The files that a complete installation holds.
pub open spec fn expected_files_ok(files: Seq<String>) -> bool {
    files.map_values(|f: String| f@) == seq!["bin/go"@, "bin/gofmt"@, "src"@, "pkg"@]
}

/// The check that the installed Go works.
pub open spec fn is_verification_task(t: InstallTask, version: Seq<char>, install_dir: Seq<char>, os: Seq<char>) -> bool {
    let version_dir = path_join(install_dir, version);
    let go_binary = path_join(path_join(version_dir, "bin"@), go_exe_name(os));
    &&& task_header(t, "verify_install"@, "Verify Installation"@, "Verify Go installation is working correctly"@, 10, seq!["extract"@])
    &&& t.subtasks@.len() == 2
    &&& subtask_is(t.subtasks@[0], "Test Go binary"@, 500, true, None)
    &&& t.subtasks@[0].action matches TaskAction::Verification {
        check: ValidationCheck::ExecutableWorks { path, args, expected_exit_code },
    } && path@ == go_binary && args@.len() == 1 && args@[0]@ == "version"@ && expected_exit_code == Some(0i32)
    &&& subtask_is(t.subtasks@[1], "Verify installation completeness"@, 500, true, None)
    &&& t.subtasks@[1].action matches TaskAction::Verification {
        check: ValidationCheck::InstallationComplete { install_dir: d, expected_files },
    } && d@ == version_dir && expected_files_ok(expected_files@)
    &&& t.validation_criteria@.len() == 1
    &&& t.validation_criteria@[0] matches ValidationCheck::GoVersionMatch { go_binary: b, expected_version }
        && b@ == go_binary && expected_version@ == version
}

/// The closing task.
pub open spec fn is_finalization_task(t: InstallTask, version: Seq<char>, install_dir: Seq<char>) -> bool {
    &&& task_header(t, "finalize"@, "Finalize Installation"@, "Complete installation and cleanup"@, 5, seq!["verify_install"@])
    &&& t.subtasks@.len() == 1
    &&& subtask_is(t.subtasks@[0], "Register installation"@, 1000, false, None)
    &&& t.subtasks@[0].action matches TaskAction::Verification { check: ValidationCheck::PathExists { path } }
        && path@ == path_join(install_dir, version)
    &&& t.validation_criteria@.len() == 0
}

/// The dependencies of a list of tasks: for each task, one per prerequisite.
pub open spec fn dependency_pairs(tasks: Seq<InstallTask>) -> Seq<(Seq<char>, Seq<char>)>
    decreases tasks.len(),
{
    if tasks.len() == 0 {
        Seq::empty()
    } else {
        let t = tasks.last();
        dependency_pairs(tasks.drop_last()) + id_texts(t.prerequisites@).map_values(
            |p: Seq<char>| (t.id.0@, p),
        )
    }
}

/// The view of a dependency.
pub open spec fn dependency_view(d: TaskDependency) -> (Seq<char>, Seq<char>) {
    (d.task_id.0@, d.depends_on.0@)
}

/// The files that a task downloads.
pub open spec fn download_destinations(subtasks: Seq<SubTask>) -> Seq<Seq<char>>
    decreases subtasks.len(),
{
    if subtasks.len() == 0 {
        Seq::empty()
    } else {
        let rest = download_destinations(subtasks.drop_last());
        match subtasks.last().action {
            TaskAction::FileDownload { destination, .. } => rest.push(destination@),
            _ => rest,
        }
    }
}

/// What undoing a step means, as text: a removed directory or a removed file.
pub enum UndoView {
    RemoveDir(Seq<char>),
    RemoveFile(Seq<char>),
    RestoreFile(Seq<char>, Seq<char>),
    RemoveSymlink(Seq<char>),
    CustomCleanup(Seq<char>, Seq<Seq<char>>),
}

/// The view of a rollback step.
pub open spec fn undo_view(s: RollbackStep) -> UndoView {
    match s {
        RollbackStep::RemoveDirectory { path } => UndoView::RemoveDir(path@),
        RollbackStep::RemoveFile { path } => UndoView::RemoveFile(path@),
        RollbackStep::RestoreFile { backup_path, original_path } => UndoView::RestoreFile(backup_path@, original_path@),
        RollbackStep::RemoveSymlink { path } => UndoView::RemoveSymlink(path@),
        RollbackStep::CustomCleanup { program, args } => UndoView::CustomCleanup(program@, args@.map_values(|a: String| a@)),
    }
}

/// How to undo a task: the version's directory goes for the directory setup
/// and the extraction, the downloaded files for the download.
pub open spec fn task_undo(t: InstallTask, version_dir: Seq<char>) -> Seq<UndoView> {
    if t.id.0@ == "create_dirs"@ || t.id.0@ == "extract"@ {
        seq![UndoView::RemoveDir(version_dir)]
    } else if t.id.0@ == "download"@ {
        download_destinations(t.subtasks@).map_values(|p: Seq<char>| UndoView::RemoveFile(p))
    } else {
        Seq::empty()
    }
}

/// How to undo a list of tasks: the last task first.
pub open spec fn rollback_views(tasks: Seq<InstallTask>, version_dir: Seq<char>) -> Seq<UndoView>
    decreases tasks.len(),
{
    if tasks.len() == 0 {
        Seq::empty()
    } else {
        rollback_views(tasks.drop_first(), version_dir) + task_undo(tasks[0], version_dir)
    }
}

/// The archive format for a platform's extension (gzip'd tar when the
/// extension is unknown).
pub open spec fn format_for(extension: Seq<char>) -> ArchiveFormat {
    match format_of_extension(extension) {
        Some(f) => f,
        None => ArchiveFormat::TarGz,
    }
}

/// The plan for installing `version` into `install_dir` on `platform`, with
/// the archive kept in `cache_dir`: checks, directories, the download (unless
/// the archive is cached and reinstalling is not forced), extraction,
/// verification and finalization, in that order; one dependency per
/// prerequisite, the undo steps of the tasks last first, and the sum of the
/// estimates.
pub open spec fn is_install_plan(
    plan: DetailedInstallPlan,
    platform: PlatformInfo,
    version: Seq<char>,
    install_dir: Seq<char>,
    cache_dir: Seq<char>,
    force: bool,
    cached_exists: bool,
) -> bool {
    let archive = archive_name(version, platform.os@, platform.arch@, platform.extension@);
    let cached_file = path_join(cache_dir, archive);
    let download = !cached_exists || force;
    let tasks = plan.tasks@;
    let n = tasks.len();
    &&& plan.version@ == version
    &&& n == (if download { 6int } else { 5int })
    &&& is_precheck_task(tasks[0], version, install_dir, cache_dir, force)
    &&& is_directory_setup_task(tasks[1], install_dir, cache_dir, version)
    &&& download ==> is_download_task(tasks[2], cached_file, archive)
    &&& is_extraction_task(tasks[n - 3], version, cached_file, install_dir, cached_exists, format_for(platform.extension@), platform.os@)
    &&& is_verification_task(tasks[n - 2], version, install_dir, platform.os@)
    &&& is_finalization_task(tasks[n - 1], version, install_dir)
    &&& plan.dependencies@.map_values(|d: TaskDependency| dependency_view(d)) == dependency_pairs(tasks)
    &&& forall|i: int| 0 <= i < plan.dependencies@.len()
        ==> (#[trigger] plan.dependencies@[i]).dependency_type == DependencyType::Sequential
    &&& plan.rollback_plan@.map_values(|s: RollbackStep| undo_view(s)) == rollback_views(tasks, path_join(install_dir, version))
    &&& plan.estimated_total_secs == total_secs(tasks)
}

/// Installation planner that creates comprehensive installation plans
pub struct InstallPlanner {
    pub platform_info: PlatformInfo,
}

impl InstallPlanner {
    /// A planner for the compilation target `target_os`/`target_arch`.
    pub fn new(target_os: &str, target_arch: &str) -> (res: Self)
        ensures
            (res.platform_info.os@, res.platform_info.arch@) == crate::progress::tasks::planner_os_arch(target_os@, target_arch@),
            res.platform_info.extension@ == (if target_os@ == "windows"@ { "zip"@ } else { "tar.gz"@ }),
    {
        InstallPlanner { platform_info: PlatformInfo::detect(target_os, target_arch) }
    }

    /// Create a detailed installation plan for a Go version. `cached_exists`
    /// says whether the archive is already in the cache.
    pub fn create_detailed_plan(
        &self,
        version: &str,
        install_dir: &str,
        cache_dir: &str,
        force: bool,
        cached_exists: bool,
    ) -> (res: Result<DetailedInstallPlan, GvmError>)
        ensures
            res matches Ok(plan) && is_install_plan(plan, self.platform_info, version@, install_dir@, cache_dir@, force, cached_exists),
    {
        let mut tasks: Vec<InstallTask> = Vec::new();
        tasks.push(self.create_precheck_task(version, install_dir, cache_dir, force));
        tasks.push(self.create_directory_setup_task(install_dir, cache_dir, version));
        let archive_name = self.platform_info.archive_filename(version);
        let cached_file = join(cache_dir, archive_name.as_str());
        let needs_download = !cached_exists || force;
        if needs_download {
            tasks.push(self.create_download_task(version, cached_file.as_str(), archive_name.as_str()));
        }
        tasks.push(self.create_extraction_task(version, cached_file.as_str(), install_dir, cached_exists));
        tasks.push(self.create_verification_task(version, install_dir));
        tasks.push(self.create_finalization_task(version, install_dir));
        let dependencies = self.build_dependency_graph(&tasks);
        let rollback_plan = self.create_rollback_plan(&tasks, install_dir, version);
        proof {
            reveal_with_fuel(total_secs, 7);
        }
        let estimated_total_secs = sum_durations(&tasks);
        Ok(DetailedInstallPlan {
            version: String::from_str(version),
            tasks,
            dependencies,
            rollback_plan,
            estimated_total_secs,
        })
    }

    /// Create pre-installation validation task
    pub fn create_precheck_task(&self, version: &str, install_dir: &str, cache_dir: &str, force: bool) -> (res: InstallTask)
        ensures
            is_precheck_task(res, version@, install_dir@, cache_dir@, force),
    {
        let t = InstallTask::new("precheck", "Pre-installation Checks", "Validate environment and requirements");
        let t = t.with_duration(5);
        let t = t.with_subtask(
            SubTask::new(
                "Validate version format",
                TaskAction::Verification { check: ValidationCheck::VersionFormat { version: String::from_str(version) } },
            ).with_weight(200).no_retry(),
        );
        let t = t.with_subtask(
            SubTask::new(
                "Check disk space",
                TaskAction::Verification {
                    check: ValidationCheck::DiskSpace {
                        path: String::from_str(install_dir),
                        required_bytes: Self::estimate_required_space(version),
                    },
                },
            ).with_weight(300),
        );
        let t = t.with_subtask(
            SubTask::new(
                "Check existing installation",
                TaskAction::Verification {
                    check: ValidationCheck::ExistingInstallation {
                        version: String::from_str(version),
                        install_dir: String::from_str(install_dir),
                        force,
                    },
                },
            ).with_weight(500).no_retry(),
        );
        let t = t.with_validation(ValidationCheck::PathWritable { path: String::from_str(install_dir) });
        let t = t.with_validation(ValidationCheck::PathWritable { path: String::from_str(cache_dir) });
        proof {
            assert(id_texts(t.prerequisites@) =~= Seq::<Seq<char>>::empty());
        }
        t
    }

    /// Create directory setup task
    pub fn create_directory_setup_task(&self, install_dir: &str, cache_dir: &str, version: &str) -> (res: InstallTask)
        ensures
            is_directory_setup_task(res, install_dir@, cache_dir@, version@),
    {
        let version_dir = join(install_dir, version);
        let t = InstallTask::new("create_dirs", "Directory Setup", "Create necessary directories");
        let t = t.with_duration(2);
        let t = t.depends_on(TaskId::new("precheck"));
        let t = t.with_subtask(
            SubTask::new(
                "Create install directory",
                TaskAction::DirectoryCreate { path: String::from_str(install_dir), permissions: Some(0o755), create_parents: true },
            ).with_weight(400),
        );
        let t = t.with_subtask(
            SubTask::new(
                "Create cache directory",
                TaskAction::DirectoryCreate { path: String::from_str(cache_dir), permissions: Some(0o755), create_parents: true },
            ).with_weight(400),
        );
        let t = t.with_subtask(
            SubTask::new(
                "Create version-specific directory",
                TaskAction::DirectoryCreate { path: version_dir.clone(), permissions: Some(0o755), create_parents: true },
            ).with_weight(200),
        );
        let t = t.with_validation(ValidationCheck::PathExists { path: String::from_str(install_dir) });
        let t = t.with_validation(ValidationCheck::PathExists { path: String::from_str(cache_dir) });
        let t = t.with_validation(ValidationCheck::PathWritable { path: version_dir });
        proof {
            assert(id_texts(t.prerequisites@) =~= seq!["precheck"@]);
        }
        t
    }

    /// Create download task
    pub fn create_download_task(&self, version: &str, cached_file: &str, archive_name: &str) -> (res: InstallTask)
        ensures
            is_download_task(res, cached_file@, archive_name@),
    {
        let mut download_url = String::from_str("https://go.dev/dl/");
        download_url.append(archive_name);
        let mut description = String::from_str("Download ");
        description.append(archive_name);
        description.append(" from official repository");
        let t = InstallTask::new("download", "Download Go Archive", description.as_str());
        let t = t.with_duration(120);
        let t = t.depends_on(TaskId::new("create_dirs"));
        let t = t.with_subtask(
            SubTask::new(
                "Download archive",
                TaskAction::FileDownload {
                    url: download_url,
                    destination: String::from_str(cached_file),
                    checksum: None,
                    expected_size: None,
                },
            ).with_weight(950).with_timeout(300),
        );
        let t = t.with_subtask(
            SubTask::new(
                "Verify download integrity",
                TaskAction::Verification {
                    check: ValidationCheck::FileSize {
                        path: String::from_str(cached_file),
                        min_size: Some(50 * 1024 * 1024),
                        max_size: None,
                    },
                },
            ).with_weight(50),
        );
        let t = t.with_validation(ValidationCheck::PathExists { path: String::from_str(cached_file) });
        proof {
            assert(id_texts(t.prerequisites@) =~= seq!["create_dirs"@]);
        }
        t
    }

    /// The Go executable's name on the planned system.
    fn go_exe(&self) -> (res: &'static str)
        ensures
            res@ == go_exe_name(self.platform_info.os@),
    {
        if str_equal(self.platform_info.os.as_str(), "windows") {
            "go.exe"
        } else {
            "go"
        }
    }

    /// Create extraction task. `archive_exists` says whether the archive is
    /// already there (so no download comes first).
    pub fn create_extraction_task(&self, version: &str, archive_source: &str, install_dir: &str, archive_exists: bool) -> (res: InstallTask)
        ensures
            is_extraction_task(res, version@, archive_source@, install_dir@, archive_exists, format_for(self.platform_info.extension@), self.platform_info.os@),
    {
        let version_dir = join(install_dir, version);
        let archive_format = match ArchiveFormat::from_extension(self.platform_info.extension.as_str()) {
            Some(f) => f,
            None => ArchiveFormat::TarGz,
        };
        let bin_dir = join(version_dir.as_str(), "bin");
        let t = InstallTask::new("extract", "Extract Archive", "Extract Go archive to installation directory");
        let t = t.with_duration(30);
        let t = t.depends_on(if archive_exists { TaskId::new("create_dirs") } else { TaskId::new("download") });
        let t = t.with_subtask(
            SubTask::new(
                "Extract archive",
                TaskAction::ArchiveExtract {
                    source: String::from_str(archive_source),
                    destination: version_dir.clone(),
                    format: archive_format,
                    strip_components: Some(1),
                },
            ).with_weight(900),
        );
        let t = t.with_subtask(
            SubTask::new(
                "Set executable permissions",
                TaskAction::PermissionSet { path: bin_dir.clone(), permissions: 0o755, recursive: true },
            ).with_weight(100),
        );
        let t = t.with_validation(ValidationCheck::PathExists { path: join(bin_dir.as_str(), self.go_exe()) });
        let t = t.with_validation(ValidationCheck::PathExists { path: join(version_dir.as_str(), "src") });
        let t = t.with_validation(ValidationCheck::PathExists { path: join(version_dir.as_str(), "pkg") });
        proof {
            assert(id_texts(t.prerequisites@) =~= seq![if archive_exists { "create_dirs"@ } else { "download"@ }]);
        }
        t
    }

    /// Create verification task
    pub fn create_verification_task(&self, version: &str, install_dir: &str) -> (res: InstallTask)
        ensures
            is_verification_task(res, version@, install_dir@, self.platform_info.os@),
    {
        let version_dir = join(install_dir, version);
        let bin_dir = join(version_dir.as_str(), "bin");
        let go_binary = join(bin_dir.as_str(), self.go_exe());
        let mut args: Vec<String> = Vec::new();
        args.push(String::from_str("version"));
        let mut expected_files: Vec<String> = Vec::new();
        expected_files.push(String::from_str("bin/go"));
        expected_files.push(String::from_str("bin/gofmt"));
        expected_files.push(String::from_str("src"));
        expected_files.push(String::from_str("pkg"));
        proof {
            assert(expected_files@.map_values(|f: String| f@) =~= seq!["bin/go"@, "bin/gofmt"@, "src"@, "pkg"@]);
        }
        let t = InstallTask::new("verify_install", "Verify Installation", "Verify Go installation is working correctly");
        let t = t.with_duration(10);
        let t = t.depends_on(TaskId::new("extract"));
        let t = t.with_subtask(
            SubTask::new(
                "Test Go binary",
                TaskAction::Verification {
                    check: ValidationCheck::ExecutableWorks { path: go_binary.clone(), args, expected_exit_code: Some(0) },
                },
            ).with_weight(500),
        );
        let t = t.with_subtask(
            SubTask::new(
                "Verify installation completeness",
                TaskAction::Verification {
                    check: ValidationCheck::InstallationComplete { install_dir: version_dir, expected_files },
                },
            ).with_weight(500),
        );
        let t = t.with_validation(ValidationCheck::GoVersionMatch { go_binary, expected_version: String::from_str(version) });
        proof {
            assert(id_texts(t.prerequisites@) =~= seq!["extract"@]);
        }
        t
    }

    /// Create finalization task
    pub fn create_finalization_task(&self, version: &str, install_dir: &str) -> (res: InstallTask)
        ensures
            is_finalization_task(res, version@, install_dir@),
    {
        let t = InstallTask::new("finalize", "Finalize Installation", "Complete installation and cleanup");
        let t = t.with_duration(5);
        let t = t.depends_on(TaskId::new("verify_install"));
        let t = t.with_subtask(
            SubTask::new(
                "Register installation",
                TaskAction::Verification { check: ValidationCheck::PathExists { path: join(install_dir, version) } },
            ).with_weight(1000).no_retry(),
        );
        proof {
            assert(id_texts(t.prerequisites@) =~= seq!["verify_install"@]);
        }
        t
    }

    /// Build task dependency graph: one sequential dependency per prerequisite.
    pub fn build_dependency_graph(&self, tasks: &Vec<InstallTask>) -> (res: Vec<TaskDependency>)
        ensures
            res@.map_values(|d: TaskDependency| dependency_view(d)) == dependency_pairs(tasks@),
            forall|i: int| 0 <= i < res@.len() ==> (#[trigger] res@[i]).dependency_type == DependencyType::Sequential,
    {
        let mut deps: Vec<TaskDependency> = Vec::new();
        let mut i: usize = 0;
        while i < tasks.len()
            invariant
                i <= tasks@.len(),
                deps@.map_values(|d: TaskDependency| dependency_view(d)) == dependency_pairs(tasks@.subrange(0, i as int)),
                forall|k: int| 0 <= k < deps@.len() ==> (#[trigger] deps@[k]).dependency_type == DependencyType::Sequential,
            decreases tasks@.len() - i,
        {
            let task = &tasks[i];
            let ghost before = deps@.map_values(|d: TaskDependency| dependency_view(d));
            let mut j: usize = 0;
            while j < task.prerequisites.len()
                invariant
                    i < tasks@.len(),
                    *task == tasks@[i as int],
                    j <= task.prerequisites@.len(),
                    deps@.map_values(|d: TaskDependency| dependency_view(d)) == before + id_texts(task.prerequisites@).subrange(0, j as int).map_values(
                        |p: Seq<char>| (task.id.0@, p),
                    ),
                    forall|k: int| 0 <= k < deps@.len() ==> (#[trigger] deps@[k]).dependency_type == DependencyType::Sequential,
                decreases task.prerequisites@.len() - j,
            {
                let d = TaskDependency {
                    task_id: TaskId(task.id.0.clone()),
                    depends_on: TaskId(task.prerequisites[j].0.clone()),
                    dependency_type: DependencyType::Sequential,
                };
                let ghost prev = deps@.map_values(|d: TaskDependency| dependency_view(d));
                deps.push(d);
                proof {
                    let ids = id_texts(task.prerequisites@);
                    assert(deps@.map_values(|d: TaskDependency| dependency_view(d)) =~= prev.push((task.id.0@, ids[j as int])));
                    assert(ids.subrange(0, j + 1) =~= ids.subrange(0, j as int).push(ids[j as int]));
                    assert(ids.subrange(0, j + 1).map_values(|p: Seq<char>| (task.id.0@, p)) =~= ids.subrange(0, j as int).map_values(
                        |p: Seq<char>| (task.id.0@, p),
                    ).push((task.id.0@, ids[j as int])));
                    assert(deps@.map_values(|d: TaskDependency| dependency_view(d)) =~= before + id_texts(task.prerequisites@).subrange(0, j + 1).map_values(
                        |p: Seq<char>| (task.id.0@, p),
                    ));
                }
                j = j + 1;
            }
            proof {
                let sub = tasks@.subrange(0, i + 1);
                assert(sub.drop_last() =~= tasks@.subrange(0, i as int));
                assert(id_texts(task.prerequisites@).subrange(0, j as int) =~= id_texts(task.prerequisites@));
            }
            i = i + 1;
        }
        assert(tasks@.subrange(0, i as int) =~= tasks@);
        deps
    }

    /// Create rollback plan: for the tasks from last to first, remove the
    /// version's directory (directory setup, extraction) or the downloaded
    /// files (download).
    pub fn create_rollback_plan(&self, tasks: &Vec<InstallTask>, install_dir: &str, version: &str) -> (res: Vec<RollbackStep>)
        ensures
            res@.map_values(|s: RollbackStep| undo_view(s)) == rollback_views(tasks@, path_join(install_dir@, version@)),
    {
        let version_dir = join(install_dir, version);
        let ghost vd = version_dir@;
        let mut steps: Vec<RollbackStep> = Vec::new();
        let mut i: usize = tasks.len();
        proof {
            assert(tasks@.subrange(i as int, tasks@.len() as int) =~= Seq::<InstallTask>::empty());
        }
        while i > 0
            invariant
                i <= tasks@.len(),
                version_dir@ == vd,
                vd == path_join(install_dir@, version@),
                steps@.map_values(|s: RollbackStep| undo_view(s))
                    == rollback_views(tasks@.subrange(i as int, tasks@.len() as int), vd),
            decreases i,
        {
            i = i - 1;
            let task = &tasks[i];
            let ghost before = steps@.map_values(|s: RollbackStep| undo_view(s));
            if str_equal(task.id.0.as_str(), "create_dirs") || str_equal(task.id.0.as_str(), "extract") {
                steps.push(RollbackStep::RemoveDirectory { path: version_dir.clone() });
                proof {
                    assert(steps@.map_values(|s: RollbackStep| undo_view(s)) =~= before + task_undo(*task, vd));
                }
            } else if str_equal(task.id.0.as_str(), "download") {
                let mut j: usize = 0;
                while j < task.subtasks.len()
                    invariant
                        i < tasks@.len(),
                        *task == tasks@[i as int],
                        j <= task.subtasks@.len(),
                        steps@.map_values(|s: RollbackStep| undo_view(s))
                            == before + download_destinations(task.subtasks@.subrange(0, j as int)).map_values(|p: Seq<char>| UndoView::RemoveFile(p)),
                    decreases task.subtasks@.len() - j,
                {
                    proof {
                        assert(task.subtasks@.subrange(0, j + 1).drop_last() =~= task.subtasks@.subrange(0, j as int));
                    }
                    let ghost before_j = steps@.map_values(|s: RollbackStep| undo_view(s));
                    if let TaskAction::FileDownload { destination, .. } = &task.subtasks[j].action {
                        steps.push(RollbackStep::RemoveFile { path: destination.clone() });
                        proof {
                            assert(steps@.map_values(|s: RollbackStep| undo_view(s)) =~= before_j.push(UndoView::RemoveFile(destination@)));
                        }
                    }
                    proof {
                        assert(steps@.map_values(|s: RollbackStep| undo_view(s)) =~= before
                            + download_destinations(task.subtasks@.subrange(0, j + 1)).map_values(|p: Seq<char>| UndoView::RemoveFile(p)));
                    }
                    j = j + 1;
                }
                proof {
                    assert(task.subtasks@.subrange(0, j as int) =~= task.subtasks@);
                    assert(steps@.map_values(|s: RollbackStep| undo_view(s)) =~= before + task_undo(*task, vd));
                }
            } else {
                proof {
                    assert(steps@.map_values(|s: RollbackStep| undo_view(s)) =~= before + task_undo(*task, vd));
                }
            }
            proof {
                let suffix = tasks@.subrange(i as int, tasks@.len() as int);
                assert(suffix.drop_first() =~= tasks@.subrange(i + 1, tasks@.len() as int));
                assert(suffix[0] == *task);
            }
        }
        proof {
            assert(tasks@.subrange(0, tasks@.len() as int) =~= tasks@);
        }
        steps
    }

    /// Estimate required disk space for installation: 500 MiB, and 100 MiB
    /// more for versions starting with `1.2`.
    pub fn estimate_required_space(version: &str) -> (res: u64)
        ensures
            res == required_space(version@),
    {
        let base_size: u64 = 500 * 1024 * 1024;
        if starts_with(version, "1.2") {
            proof {
                reveal_strlit("1.2");
            }
            base_size + 100 * 1024 * 1024
        } else {
            proof {
                reveal_strlit("1.2");
            }
            base_size
        }
    }
}

/// A plan that `create_detailed_plan` makes runs its tasks in the order it
/// lists them: the identifiers are distinct and each task comes after its
/// prerequisites.
pub proof fn lemma_plan_runs_in_listed_order(
    plan: DetailedInstallPlan,
    platform: PlatformInfo,
    version: Seq<char>,
    install_dir: Seq<char>,
    cache_dir: Seq<char>,
    force: bool,
    cached_exists: bool,
)
    requires
        is_install_plan(plan, platform, version, install_dir, cache_dir, force, cached_exists),
    ensures
        is_execution_order(plan.tasks@, task_ids(plan.tasks@)),
{
    reveal_strlit("precheck");
    reveal_strlit("create_dirs");
    reveal_strlit("download");
    reveal_strlit("extract");
    reveal_strlit("verify_install");
    reveal_strlit("finalize");
    let tasks = plan.tasks@;
    let ids = task_ids(tasks);
    let n = tasks.len();
    let download = !cached_exists || force;
    let expected: Seq<Seq<char>> = if download {
        seq!["precheck"@, "create_dirs"@, "download"@, "extract"@, "verify_install"@, "finalize"@]
    } else {
        seq!["precheck"@, "create_dirs"@, "extract"@, "verify_install"@, "finalize"@]
    };
    assert(ids =~= expected);
    assert forall|i: int, j: int| 0 <= i < j < n implies tasks[i].id.0@ != tasks[j].id.0@ by {
        assert(ids[i] == expected[i] && ids[j] == expected[j]);
        // the identifiers differ in their first letter
        assert(expected[i][0] != expected[j][0]);
    }
    assert forall|k: int, p: Seq<char>| 0 <= k < n && #[trigger] id_texts(tasks[k].prerequisites@).contains(p)
        implies ids.subrange(0, k).contains(p) by {
        let q = choose|q: int| 0 <= q < id_texts(tasks[k].prerequisites@).len() && id_texts(tasks[k].prerequisites@)[q] == p;
        if k == 1 {
            assert(ids.subrange(0, k)[0] == p);
        } else if k == 2 {
            assert(ids.subrange(0, k)[1] == p);
        } else if k == n - 3 {
            if cached_exists {
                assert(ids.subrange(0, k)[1] == p);
            } else {
                assert(ids.subrange(0, k)[2] == p);
            }
        } else if k == n - 2 {
            assert(ids.subrange(0, k)[n - 3] == p);
        } else if k == n - 1 {
            assert(ids.subrange(0, k)[n - 2] == p);
        }
    }
    lemma_listed_order_runs(tasks);
}

} // verus!
