use tidepool_gvm::commands::{self, UiLine};
use tidepool_gvm::config::Config;
use tidepool_gvm::downloader::{
    after_chunk_attempt, check_chunk, chunk_attempts_exhausted, content_length, format_file_size, range_header,
    ChunkInfo, ChunkRetry, DownloadConfig, DownloadError,
};
use tidepool_gvm::error::GvmError;
use tidepool_gvm::go::{DirEntry, GoManager, LinkState};
use tidepool_gvm::checksum::{archive_digest, digest_matches, published_digest_of};
use tidepool_gvm::install::{InstallAction, InstallEvent, InstallStage, Installation};
use tidepool_gvm::progress::coordinator::{display_execution_log, install_basic_fallback, BasicRoute};
use tidepool_gvm::progress::executor::{seconds_with_centis, TaskExecutor};
use tidepool_gvm::progress::planner::InstallPlanner;
use tidepool_gvm::progress::simple_install::{install_with_fallback, FallbackRoute};
use tidepool_gvm::progress::tasks::{DetailedInstallPlan, InstallTask, RollbackStep};
use tidepool_gvm::progress::types::TaskId;
use tidepool_gvm::progress::validator::{
    timestamp_of, ClockReading, PathObservation, PreInstallObservations, ValidationEngine, WriteObservation,
};
use tidepool_gvm::text::{decimal_string, parse_unsigned_str, sort_strings};
use tidepool_gvm::{InstallRequest, SwitchRequest, UninstallRequest, VersionInfo};
use tidepool_gvm::ui::interactive::{ask_retry, handle_version_conflict, select_multiple_versions, select_with_search, ConflictAction};
use tidepool_gvm::ui::interactive::format_version_with_info;
use tidepool_gvm::ui::theme::{auto_theme, detect_theme, is_dark_terminal, supports_color, supports_unicode, ThemeKind};
use tidepool_gvm::go::GoVersionInfo;
use tidepool_gvm::ui::screen::{DisplayLine, UiColor, UI};
use tidepool_gvm::progress::executor::PlanAction;

/// 2023-11-14 22:13:20 UTC.
const CLOCK: ClockReading = ClockReading { secs: 1_700_000_000, nanos: 0 };

#[test]
fn timestamps_are_rfc3339_or_empty() {
    assert_eq!(timestamp_of(CLOCK), "2023-11-14T22:13:20+00:00");
    assert_eq!(timestamp_of(ClockReading { secs: -1, nanos: 500_000_000 }), "1969-12-31T23:59:59.500+00:00");
    assert_eq!(timestamp_of(ClockReading { secs: i64::MAX, nanos: 0 }), "");
}

fn path_obs(exists: bool, is_dir: bool) -> PathObservation {
    PathObservation { exists, is_dir, is_file: exists && !is_dir, elapsed_ms: 0 }
}

fn plan_of(tasks: Vec<InstallTask>) -> DetailedInstallPlan {
    DetailedInstallPlan {
        version: "1.21.0".to_string(),
        tasks,
        dependencies: Vec::new(),
        rollback_plan: Vec::new(),
        estimated_total_secs: 0,
    }
}

/// The SHA-256 digest of the bytes `abc`.
const ABC_SHA256: &str = "ba7816bf8f01cfea414140de5dae2223b00361a396177a9cb410ff61f20015ad";

/// Answers the checksum steps of an installation with a checksum file that
/// matches an archive holding `abc`.
fn pass_checksum(inst: &mut Installation) -> InstallAction {
    let published = format!("{}  go-archive\n", ABC_SHA256);
    match inst.step(InstallEvent::Fetched { text: published }) {
        InstallAction::ReadFile { .. } => {}
        other => panic!("unexpected {:?}", other),
    }
    inst.step(InstallEvent::Read { data: b"abc".to_vec() })
}

fn ids(order: &[TaskId]) -> Vec<String> {
    order.iter().map(|t| t.0.clone()).collect()
}

#[test]
fn install_runs_every_step_and_reports_the_installed_version() {
    let request = InstallRequest {
        version: "1.21.0".to_string(),
        install_dir: "/gvm/versions".to_string(),
        download_dir: "/gvm/cache".to_string(),
        force: false,
    };
    let (mut inst, first) = Installation::start(&request, "linux", "x86_64");
    match first {
        InstallAction::CheckExists { path } => assert_eq!(path, "/gvm/cache/go1.21.0.linux-amd64.tar.gz"),
        other => panic!("unexpected {:?}", other),
    }
    match inst.step(InstallEvent::Exists(false)) {
        InstallAction::Download { url, destination, filename } => {
            assert_eq!(url, "https://go.dev/dl/go1.21.0.linux-amd64.tar.gz");
            assert_eq!(destination, "/gvm/cache/go1.21.0.linux-amd64.tar.gz");
            assert_eq!(filename, "go1.21.0.linux-amd64.tar.gz");
        }
        other => panic!("unexpected {:?}", other),
    }
    match inst.step(InstallEvent::Completed) {
        InstallAction::CheckExists { path } => assert_eq!(path, "/gvm/versions/1.21.0"),
        other => panic!("unexpected {:?}", other),
    }
    match inst.step(InstallEvent::Exists(false)) {
        InstallAction::FetchText { url } => assert_eq!(url, "https://go.dev/dl/go1.21.0.linux-amd64.tar.gz.sha256"),
        other => panic!("unexpected {:?}", other),
    }
    match pass_checksum(&mut inst) {
        InstallAction::CheckExists { path } => assert_eq!(path, "/gvm/versions/1.21.0_temp"),
        other => panic!("unexpected {:?}", other),
    }
    let events = [
        InstallEvent::Exists(false),
        InstallEvent::Completed,
        InstallEvent::Completed,
        InstallEvent::Exists(true),
        InstallEvent::Completed,
        InstallEvent::Completed,
    ];
    for e in events {
        let a = inst.step(e);
        assert!(!matches!(a, InstallAction::Finish { .. }));
    }
    assert_eq!(inst.stage, InstallStage::CheckBinary);
    match inst.step(InstallEvent::Exists(true)) {
        InstallAction::Finish { result: Ok(info) } => {
            assert_eq!(info.version, "1.21.0");
            assert_eq!(info.path, "/gvm/versions/1.21.0");
            assert!(info.is_installed);
            assert_eq!(info.os, "linux");
        }
        other => panic!("unexpected {:?}", other),
    }
}

#[test]
fn install_refuses_an_existing_version_unless_forced() {
    let request = InstallRequest {
        version: "1.20".to_string(),
        install_dir: "/v".to_string(),
        download_dir: "/c".to_string(),
        force: false,
    };
    let (mut inst, _) = Installation::start(&request, "linux", "x86_64");
    match inst.step(InstallEvent::Exists(true)) {
        InstallAction::CheckExists { path } => assert_eq!(path, "/v/1.20"),
        other => panic!("unexpected {:?}", other),
    }
    match inst.step(InstallEvent::Exists(true)) {
        InstallAction::Finish { result: Err(e) } => assert_eq!(e.message(), "Go version 1.20 is already installed"),
        other => panic!("unexpected {:?}", other),
    }

    let forced = InstallRequest { force: true, ..request };
    let (mut inst, _) = Installation::start(&forced, "linux", "x86_64");
    inst.step(InstallEvent::Exists(true));
    match inst.step(InstallEvent::Exists(true)) {
        InstallAction::FetchText { .. } => {}
        other => panic!("unexpected {:?}", other),
    }
    match pass_checksum(&mut inst) {
        InstallAction::RemoveDirAll { path } => assert_eq!(path, "/v/1.20"),
        other => panic!("unexpected {:?}", other),
    }
    assert!(inst.replacing);
}

#[test]
fn install_reports_failures_with_their_step() {
    let request = InstallRequest {
        version: "1.20".to_string(),
        install_dir: "/v".to_string(),
        download_dir: "/c".to_string(),
        force: false,
    };
    let (mut inst, _) = Installation::start(&request, "windows", "x86_64");
    inst.step(InstallEvent::Exists(false));
    match inst.step(InstallEvent::Failed { detail: "timeout".to_string() }) {
        InstallAction::Finish { result: Err(e) } => assert_eq!(e.message(), "Download failed: timeout"),
        other => panic!("unexpected {:?}", other),
    }
    assert_eq!(inst.layout.go_binary, "/v/1.20/bin/go.exe");
    assert_eq!(inst.layout.filename, "go1.20.windows-amd64.zip");
}

#[test]
fn install_refuses_an_archive_whose_digest_differs() {
    let request = InstallRequest {
        version: "1.21.3".to_string(),
        install_dir: "/v".to_string(),
        download_dir: "/c".to_string(),
        force: false,
    };
    let (mut inst, _) = Installation::start(&request, "linux", "x86_64");
    inst.step(InstallEvent::Exists(true));
    inst.step(InstallEvent::Exists(false));
    inst.step(InstallEvent::Fetched { text: format!("\n {}\n", ABC_SHA256) });
    match inst.step(InstallEvent::Read { data: b"abd".to_vec() }) {
        InstallAction::Finish { result: Err(e) } => {
            assert!(matches!(e, GvmError::ChecksumMismatch { .. }));
            assert!(e.message().starts_with(&format!(
                "Checksum mismatch for go1.21.3.linux-amd64.tar.gz: expected {}, got ",
                ABC_SHA256
            )));
            assert!(!e.message().ends_with(ABC_SHA256));
        }
        other => panic!("unexpected {:?}", other),
    }

    let (mut inst, _) = Installation::start(&request, "linux", "x86_64");
    inst.step(InstallEvent::Exists(true));
    inst.step(InstallEvent::Exists(false));
    match inst.step(InstallEvent::Failed { detail: "offline".to_string() }) {
        InstallAction::Finish { result: Err(e) } => assert_eq!(e.message(), "Failed to fetch checksum: offline"),
        other => panic!("unexpected {:?}", other),
    }
}

#[test]
fn archive_digest_is_lowercase_sha256() {
    assert_eq!(archive_digest(b"abc"), ABC_SHA256);
    assert_eq!(published_digest_of("  ABC def\n"), "ABC");
    assert!(digest_matches(&format!("{} file", ABC_SHA256), b"abc"));
    assert!(!digest_matches("", b"abc"));
}

#[test]
fn install_discards_an_archive_without_a_go_directory() {
    let request = InstallRequest {
        version: "1.20".to_string(),
        install_dir: "/v".to_string(),
        download_dir: "/c".to_string(),
        force: false,
    };
    let (mut inst, _) = Installation::start(&request, "linux", "aarch64");
    inst.step(InstallEvent::Exists(true));
    inst.step(InstallEvent::Exists(false));
    pass_checksum(&mut inst);
    for e in [
        InstallEvent::Exists(false),
        InstallEvent::Completed,
    ] {
        inst.step(e);
    }
    assert_eq!(inst.stage, InstallStage::Extracting);
    match inst.step(InstallEvent::Completed) {
        InstallAction::CheckExists { path } => assert_eq!(path, "/v/1.20_temp/go"),
        other => panic!("unexpected {:?}", other),
    }
    match inst.step(InstallEvent::Exists(false)) {
        InstallAction::RemoveDirAll { path } => assert_eq!(path, "/v/1.20_temp"),
        other => panic!("unexpected {:?}", other),
    }
    match inst.step(InstallEvent::Completed) {
        InstallAction::Finish { result: Err(GvmError::GoDirMissing) } => {}
        other => panic!("unexpected {:?}", other),
    }
}

#[test]
fn execution_order_follows_prerequisites() {
    let a = InstallTask::new("a", "A", "first");
    let b = InstallTask::new("b", "B", "second").depends_on(TaskId::new("c"));
    let c = InstallTask::new("c", "C", "third").depends_on(TaskId::new("a"));
    let plan = plan_of(vec![a, b, c]);
    let order = plan.execution_order().unwrap();
    assert_eq!(ids(&order), vec!["a", "c", "b"]);
}

#[test]
fn execution_order_refuses_a_cycle() {
    let a = InstallTask::new("a", "A", "first").depends_on(TaskId::new("b"));
    let b = InstallTask::new("b", "B", "second").depends_on(TaskId::new("a"));
    let plan = plan_of(vec![a, b]);
    match plan.execution_order() {
        Err(e) => assert_eq!(e.message(), "Circular dependency detected in tasks"),
        Ok(_) => panic!("a cycle was ordered"),
    }
    let lone = plan_of(vec![InstallTask::new("x", "X", "y").depends_on(TaskId::new("missing"))]);
    assert!(lone.execution_order().is_err());
}

#[test]
fn planned_installation_runs_in_listed_order() {
    let planner = InstallPlanner::new("linux", "x86_64");
    for (force, cached) in [(false, false), (false, true), (true, true)] {
        let plan = planner.create_detailed_plan("1.21.0", "/v", "/c", force, cached).unwrap();
        let listed: Vec<String> = plan.tasks.iter().map(|t| t.id.0.clone()).collect();
        let expected: Vec<&str> = if cached && !force {
            vec!["precheck", "create_dirs", "extract", "verify_install", "finalize"]
        } else {
            vec!["precheck", "create_dirs", "download", "extract", "verify_install", "finalize"]
        };
        assert_eq!(listed, expected);
        assert_eq!(ids(&plan.execution_order().unwrap()), listed);
        assert_eq!(plan.total_estimated_duration(), plan.estimated_total_secs);
        let expected_secs = if cached && !force { 52 } else { 172 };
        assert_eq!(plan.estimated_total_secs, expected_secs);
    }
}

#[test]
fn plan_rollback_removes_version_dir_and_download() {
    let planner = InstallPlanner::new("linux", "x86_64");
    let plan = planner.create_detailed_plan("1.21.0", "/v", "/c", false, false).unwrap();
    let views: Vec<String> = plan
        .rollback_plan
        .iter()
        .map(|s| match s {
            RollbackStep::RemoveDirectory { path } => format!("dir {}", path),
            RollbackStep::RemoveFile { path } => format!("file {}", path),
            _ => "other".to_string(),
        })
        .collect();
    assert_eq!(views, vec!["dir /v/1.21.0", "file /c/go1.21.0.linux-amd64.tar.gz", "dir /v/1.21.0"]);
    assert_eq!(plan.dependencies.len(), 5);
}

#[test]
fn rollback_order_runs_last_task_first() {
    let t0 = InstallTask::new("a", "A", "a").with_rollback_step(RollbackStep::RemoveFile { path: "x".to_string() });
    let t1 = InstallTask::new("b", "B", "b")
        .with_rollback_step(RollbackStep::RemoveFile { path: "y".to_string() })
        .with_rollback_step(RollbackStep::RemoveFile { path: "z".to_string() });
    let plan = plan_of(vec![t0, t1]);
    assert_eq!(TaskExecutor::rollback_order(&plan), vec![(1, 0), (1, 1), (0, 0)]);
}

#[test]
fn executor_logs_and_checks_versions() {
    let mut ex = TaskExecutor::new(3);
    assert!(ex.is_valid_version_format("1.21.0-rc1"));
    assert!(!ex.is_valid_version_format("1.21 0"));
    ex.log_success(&TaskId::new("t"), "Run", "ok", 5);
    ex.log_failure(&TaskId::new("u"), "Run", "bad", 6);
    let log = ex.get_execution_log();
    assert_eq!(log.len(), 2);
    assert!(log[0].success && !log[1].success);
    let lines = display_execution_log(log);
    assert_eq!(lines, vec!["✅ [t] Run: ok", "❌ [u] Run: bad"]);
    assert_eq!(seconds_with_centis(1234), "1.23");
    assert_eq!(seconds_with_centis(15), "0.01");
}

#[test]
fn seconds_match_two_decimal_float_rendering() {
    let mut samples: Vec<u64> = (0..20_000).collect();
    samples.extend([
        123_456_785,
        9_007_199_254_740_993,
        9_007_199_254_740_991_005,
        18_446_744_073_709_551_615,
        1_000_000_000_000_125,
    ]);
    for ms in samples {
        let expected = format!("{:.2}", std::time::Duration::from_millis(ms).as_secs_f64());
        assert_eq!(seconds_with_centis(ms), expected, "for {} ms", ms);
    }
}

#[test]
fn validation_before_installing() {
    let mut engine = ValidationEngine::new();
    let obs = PreInstallObservations {
        install_dir: path_obs(true, true),
        cache_dir: path_obs(false, false),
        writes: WriteObservation { install_dir_writable: Some(true), cache_dir_writable: None, elapsed_ms: 1 },
        version_dir: path_obs(false, false),
    };
    let report = engine.pre_installation_validation("1.21.0", "/v", "/c", false, &obs, 7, CLOCK).unwrap();
    assert_eq!(report.total_checks, 7);
    assert_eq!(report.successful_checks, 7);
    assert_eq!(report.failed_checks, 0);
    assert!(report.overall_success);
    assert_eq!(report.total_duration_ms, 7);
    assert!(report.results.iter().all(|r| r.timestamp == "2023-11-14T22:13:20+00:00"));
    assert_eq!(report.results[5].message, "Network connectivity verified");
    assert_eq!(report.results[4].message, "Sufficient disk space available: 5120 MB");

    let bad = PreInstallObservations { version_dir: path_obs(true, true), ..obs };
    match engine.pre_installation_validation("1.21.0", "/v", "/c", false, &bad, 7, CLOCK) {
        Err(e) => assert_eq!(e.message(), "Go 1.21.0 is already installed. Use --force to overwrite"),
        Ok(_) => panic!("an existing installation passed"),
    }
    assert_eq!(engine.checks_performed.len(), 7);
    assert_eq!(engine.checks_performed[6].message, "Go 1.21.0 is already installed at /v/1.21.0");

    let mut engine = ValidationEngine::new();
    match engine.pre_installation_validation("1.21 beta", "/v", "/c", true, &obs, 0, CLOCK) {
        Err(e) => assert_eq!(e.message(), "Version contains invalid characters"),
        Ok(_) => panic!("a bad version passed"),
    }
    assert_eq!(engine.checks_performed[0].message, "Invalid version format '1.21 beta': Version contains invalid characters");
}

#[test]
fn validation_refuses_a_file_in_place_of_a_directory() {
    let mut engine = ValidationEngine::new();
    let obs = PreInstallObservations {
        install_dir: path_obs(true, false),
        cache_dir: path_obs(true, true),
        writes: WriteObservation { install_dir_writable: Some(true), cache_dir_writable: Some(true), elapsed_ms: 0 },
        version_dir: path_obs(false, false),
    };
    match engine.pre_installation_validation("1.21.0", "/v", "/c", false, &obs, 0, CLOCK) {
        Err(e) => assert_eq!(e.message(), "install path exists but is not a directory: /v"),
        Ok(_) => panic!("a file was accepted as directory"),
    }
    assert_eq!(engine.checks_performed.len(), 3);
    assert!(!engine.checks_performed[1].success);
    assert!(engine.checks_performed[2].success);
    let report = engine.generate_report(3);
    assert_eq!(report.successful_checks + report.failed_checks, report.total_checks);
    assert!(!report.overall_success);
}

#[test]
fn chunk_plan_covers_the_file() {
    let config = DownloadConfig::default();
    assert_eq!(config.concurrent_connections, 4);
    assert_eq!(config.min_chunk_size, 1024 * 1024);
    assert!(config.enable_chunked_download);
    assert!(config.timeout_secs > 0 && config.connect_timeout_secs > 0 && config.max_retries > 0);
    for total in [1u64, 1024 * 1024, 3 * 1024 * 1024 + 7, 100 * 1024 * 1024 + 1] {
        let chunks = config.plan_chunks(total);
        assert!(chunks.len() >= 1 && chunks.len() <= 4);
        assert_eq!(chunks[0].start, 0);
        assert_eq!(chunks.last().unwrap().end, total - 1);
        let sum: u64 = chunks.iter().map(|c| c.size).sum();
        assert_eq!(sum, total);
    }
    let chunks = config.plan_chunks(10 * 1024 * 1024);
    assert_eq!(chunks.len(), 4);
    assert_eq!(chunks[1].start, 2621440);
    assert_eq!(range_header(&chunks[1]), "bytes=2621440-5242879");
    assert!(config.use_chunked(2 * 1024 * 1024));
    assert!(!config.use_chunked(1024 * 1024));
}

#[test]
fn download_decisions() {
    assert_eq!(content_length(Some("12345")).ok(), Some(12345));
    assert!(matches!(content_length(Some("12a")), Err(DownloadError::FileSize)));
    assert!(matches!(content_length(None), Err(DownloadError::FileSize)));
    assert!(matches!(content_length(Some("18446744073709551616")), Err(DownloadError::FileSize)));
    let chunk = ChunkInfo::new(2, 100, 199);
    assert!(check_chunk(&chunk, 100).is_ok());
    match check_chunk(&chunk, 99) {
        Err(e) => assert_eq!(e.message(), "Chunk download failed: Chunk 2 downloaded 99 bytes, expected 100"),
        Ok(()) => panic!("a short chunk passed"),
    }
    assert_eq!(after_chunk_attempt(1, 3, false, 1000), ChunkRetry::RetryAfterMs(1000));
    assert_eq!(after_chunk_attempt(3, 3, false, 1000), ChunkRetry::GiveUp);
    assert_eq!(after_chunk_attempt(2, 3, true, 1000), ChunkRetry::Done);
    assert_eq!(chunk_attempts_exhausted(1, 0).message(), "Chunk download failed: Chunk 1 failed after 0 attempts");
}

#[test]
fn file_sizes_match_float_formatting() {
    let units = ["B", "KB", "MB", "GB"];
    let mut samples: Vec<u64> = vec![0, 1, 1023, 1024, 1025, 1535, 1536, 1587, 10239, 10240, 1048575, 1048576];
    let mut x: u64 = 7;
    for _ in 0..2000 {
        x = x.wrapping_mul(6364136223846793005).wrapping_add(1442695040888963407);
        samples.push(x >> (x % 60));
    }
    for bytes in samples {
        let mut value = bytes as f64;
        let mut unit = 0;
        while value >= 1024.0 && unit < units.len() - 1 {
            value /= 1024.0;
            unit += 1;
        }
        let expected = if unit == 0 { format!("{} {}", bytes, units[0]) } else { format!("{:.1} {}", value, units[unit]) };
        assert_eq!(format_file_size(bytes), expected, "bytes = {}", bytes);
    }
}

#[test]
fn decimal_text_reads_back() {
    for n in [0u64, 7, 10, 99, 100, 65535, u64::MAX] {
        let s = decimal_string(n as u128);
        assert_eq!(s, n.to_string());
        assert_eq!(parse_unsigned_str(&s, u64::MAX), Some(n));
    }
    assert_eq!(parse_unsigned_str("", u64::MAX), None);
    assert_eq!(parse_unsigned_str("-1", u64::MAX), None);
}

#[test]
fn sorting_names() {
    let v = vec!["1.21.0".to_string(), "1.20.3".to_string(), "1.9".to_string(), "1.20.3".to_string()];
    assert_eq!(sort_strings(v), vec!["1.20.3", "1.20.3", "1.21.0", "1.9"]);
}

#[test]
fn config_from_environment() {
    let c = Config::new(None, None, Some("/home/u"), None, None).unwrap();
    assert_eq!(c.root_path, "/home/u/.gvm");
    assert_eq!(c.versions(), "/home/u/.gvm/versions");
    assert_eq!(c.cache(), "/home/u/.gvm/cache");
    let c = Config::new(Some("/opt/gvm"), Some("/w"), Some("/h"), Some("/vv"), None).unwrap();
    assert_eq!(c.versions(), "/vv");
    assert_eq!(c.cache(), "/opt/gvm/cache");
    assert!(matches!(Config::new(None, None, None, None, None), Err(GvmError::HomeDirUnknown)));
    let todo: Vec<(String, String)> =
        c.ensure_directories(true, false, false).into_iter().map(|d| (d.path, d.failure_context)).collect();
    assert_eq!(
        todo,
        vec![
            ("/vv".to_string(), "Failed to create versions directory /vv".to_string()),
            ("/opt/gvm/cache".to_string(), "Failed to create cache directory /opt/gvm/cache".to_string()),
        ]
    );
}

#[test]
fn switching_then_reading_the_active_version() {
    let manager = GoManager::new();
    let request = SwitchRequest { version: "1.21.0".to_string(), base_dir: "/v".to_string(), global: false, force: false };
    let plan = manager.switch_to(request.clone(), true, true).unwrap();
    assert_eq!(plan.current_path, "/v/current");
    assert!(plan.remove_existing);
    let link = LinkState { exists: true, is_symlink: true, target: Some(plan.version_path.clone()) };
    assert_eq!(manager.get_current_version(&link), Some("1.21.0".to_string()));
    let refused = manager.uninstall(
        UninstallRequest { version: "1.21.0".to_string(), base_dir: "/v".to_string() },
        true,
        &link,
    );
    assert!(matches!(refused, Err(GvmError::CurrentlyActive { .. })));
    let other = manager.uninstall(UninstallRequest { version: "1.20".to_string(), base_dir: "/v".to_string() }, true, &link);
    assert_eq!(other.unwrap().path, "/v/1.20");
    assert!(matches!(manager.switch_to(request, false, true), Err(GvmError::NotInstalled { .. })));
}

#[test]
fn listing_installed_versions() {
    let entries = vec![
        DirEntry { name: "1.21.0".to_string(), is_dir: true },
        DirEntry { name: "current".to_string(), is_dir: true },
        DirEntry { name: ".tmp".to_string(), is_dir: true },
        DirEntry { name: "1.20.1".to_string(), is_dir: true },
        DirEntry { name: "notes.txt".to_string(), is_dir: false },
    ];
    assert_eq!(commands::list_installed(&entries), vec!["1.20.1", "1.21.0"]);
    let list = GoManager::new().list_installed(
        tidepool_gvm::ListInstalledRequest { base_dir: "/v".to_string() },
        true,
        entries,
        "linux",
        "x86_64",
    );
    let names: Vec<&str> = list.versions.iter().map(|v| v.version.as_str()).collect();
    assert_eq!(names, vec![".tmp", "1.20.1", "1.21.0"]);
    assert_eq!(list.total_count, 3);
}

#[test]
fn command_output() {
    let ok: Result<(), GvmError> = Ok(());
    let (lines, result) = commands::uninstall("1.20", Ok(()));
    assert!(matches!(&lines[1], UiLine::Success(s) if s == "Go 1.20 has been successfully uninstalled"));
    assert!(result.is_ok());
    let active: Result<(), GvmError> = Err(GvmError::CurrentlyActive { version: "1.20".to_string() });
    let (lines, result) = commands::uninstall("1.20", active);
    assert_eq!(lines.len(), 3);
    assert!(matches!(result, Err(GvmError::CurrentlyActive { .. })));
    assert!(matches!(&lines[1], UiLine::Error(s) if s == "Cannot uninstall Go 1.20 - it is currently in use"));
    let missing: Result<(), GvmError> = Err(GvmError::NotInstalled { version: "1.20".to_string() });
    let (lines, result) = commands::uninstall("1.20", missing);
    assert!(matches!(&lines[1], UiLine::Warning(s) if s == "Go 1.20 is not installed"));
    assert!(matches!(result, Err(GvmError::NotInstalled { .. })));
    let (lines, result) = commands::switch("1.20", true, ok);
    assert!(result.is_ok());
    assert!(matches!(&lines[0], UiLine::Success(s) if s == "Switched to Go 1.20 (global)"));
    let info = VersionInfo {
        version: "1.20".to_string(),
        os: "linux".to_string(),
        arch: "x86_64".to_string(),
        url: String::new(),
        sha256: String::new(),
        is_installed: true,
        path: "/v/1.20".to_string(),
    };
    let lines = commands::install("1.20", &Ok(info));
    assert!(matches!(&lines[1], UiLine::Info(s) if s == "Installation path: /v/1.20"));
    let available = GoManager::new().list_available();
    let (lines, result) = commands::list(true, Ok(available), &Some("1.21.2".to_string()));
    assert!(result.is_ok());
    assert!(matches!(&lines[0], UiLine::Section(s) if s == "Available Go Versions"));
    assert!(matches!(&lines[2], UiLine::ListItem(s, true) if s == "1.21.2"));
    assert!(matches!(&lines[5], UiLine::Info(s) if s == "Total: 3 versions"));
}

#[test]
fn fallback_routes() {
    let p = install_with_fallback("1.21.0", "/v", "/c", false, true, true, "macos", "aarch64");
    assert_eq!(p.route, FallbackRoute::SwitchToExisting);
    assert_eq!(p.archive_name, "go1.21.0.darwin-arm64.tar.gz");
    let p = install_with_fallback("1.21.0", "/v", "/c", false, false, true, "windows", "x86");
    assert_eq!(p.route, FallbackRoute::FromCache);
    assert_eq!(p.cached_file, "/c/go1.21.0.windows-386.zip");
    let p = install_with_fallback("1.21.0", "/v", "/c", true, true, true, "linux", "x86_64");
    assert_eq!(p.route, FallbackRoute::DownloadAndInstall);
    assert!(p.remove_version_dir && p.remove_cached_file);
    assert_eq!(install_basic_fallback(true, false), BasicRoute::AlreadyInstalled);
    assert_eq!(install_basic_fallback(true, true), BasicRoute::Install { remove_existing: true });
}

#[test]
fn interactive_choices() {
    assert_eq!(handle_version_conflict(2), ConflictAction::Backup);
    let versions = vec!["1.21.0".to_string(), "1.20".to_string()];
    assert_eq!(select_multiple_versions(&versions, &vec![1, 0]).unwrap(), vec!["1.20", "1.21.0"]);
    assert_eq!(select_multiple_versions(&versions, &vec![]).unwrap_err().message(), "No versions selected");
    assert_eq!(select_multiple_versions(&Vec::new(), &vec![]).unwrap_err().message(), "No versions available for selection");
    assert_eq!(select_with_search(&versions, Some(1)).unwrap(), "1.20");
    assert_eq!(select_with_search(&versions, None).unwrap_err().message(), "No item selected");
    assert!(ask_retry(1, 3) && !ask_retry(3, 3));
}

#[test]
fn megabytes_match_float_formatting() {
    let mut x: u64 = 11;
    for i in 0..2000u64 {
        x = x.wrapping_mul(6364136223846793005).wrapping_add(1442695040888963407);
        let b = if i < 40 { i * 52429 } else { x >> (x % 64) };
        let expected = format!("v - {:.1}MB", b as f64 / 1024.0 / 1024.0);
        assert_eq!(format_version_with_info("v", Some(b), false, "(installed)"), expected, "bytes = {}", b);
    }
    assert_eq!(format_version_with_info("v", None, true, "*"), "v *");
}

#[test]
fn terminal_abilities() {
    assert!(supports_color(false, Some("xterm")));
    assert!(!supports_color(false, Some("dumb")));
    assert!(!supports_color(true, Some("xterm")));
    assert!(!supports_color(false, None));
    assert!(supports_unicode(Some("en_US.utf-8"), None, "linux", false));
    assert!(!supports_unicode(Some("C"), Some("en_US.UTF-8"), "linux", true));
    assert!(supports_unicode(None, None, "windows", false));
    assert!(is_dark_terminal("xterm-Dark", "", ""));
    assert!(is_dark_terminal("xterm", "iTerm.app", ""));
    assert!(is_dark_terminal("xterm", "", "15;0"));
    assert!(!is_dark_terminal("xterm", "Apple_Terminal", "0;15"));
    assert_eq!(detect_theme(false, true), ThemeKind::Minimal);
    assert_eq!(detect_theme(true, true), ThemeKind::Dark);
    assert_eq!(auto_theme(false, "dumb", true), ThemeKind::Minimal);
    assert_eq!(auto_theme(false, "xterm", false), ThemeKind::Default);
}

#[test]
fn richer_layout() {
    let ui = UI::new(false);
    let info = GoVersionInfo {
        version: "1.21.3".to_string(),
        os: "linux".to_string(),
        arch: "amd64".to_string(),
        extension: "tar.gz".to_string(),
        filename: "go1.21.3.linux-amd64.tar.gz".to_string(),
        download_url: String::new(),
        sha256: None,
        size: Some(68 * 1024 * 1024 + 512 * 1024),
        is_installed: false,
        is_cached: true,
        install_path: None,
        cache_path: None,
    };
    let lines = ui.display_version_info(&info);
    assert!(matches!(&lines[0], DisplayLine::Header(h) if h == "📦 Go 1.21.3 Details"));
    assert!(matches!(&lines[4], DisplayLine::KeyValue(k, v, UiColor::Plain) if k == "Size" && v == "68.5 MB"));
    assert!(matches!(lines.last().unwrap(), DisplayLine::Suggest(s) if s == "Install this version: gvm install 1.21.3"));
    assert_eq!(UiColor::from_name("dimmed"), UiColor::Dimmed);
    assert_eq!(UiColor::from_name("purple"), UiColor::Plain);
    assert_eq!(ui.display_download_progress(50, 200), (25, 10, 30));
    assert_eq!(ui.display_download_progress(7, 0), (0, 0, 40));
    let list = GoManager::new().list_available();
    let lines = ui.display_version_list_with_current(&list, "Versions", Some("1.21.2"));
    assert!(matches!(&lines[2], DisplayLine::Active(_, v) if v == "1.21.2"));
    assert!(matches!(lines.last().unwrap(), DisplayLine::KeyValue(k, v, UiColor::Green) if k == "Active version" && v == "1.21.2"));
}

#[test]
fn plan_run_logs_and_rolls_back() {
    let t0 = InstallTask::new("a", "A", "a");
    let t1 = InstallTask::new("b", "B", "b").with_rollback_step(RollbackStep::RemoveFile { path: "y".to_string() });
    let plan = plan_of(vec![t0, t1]);
    let mut ex = TaskExecutor::new(2);
    assert!(matches!(ex.execute_plan(&plan, 0), PlanAction::RunTask(0)));
    assert!(matches!(ex.task_finished(&plan, 0, &Ok(()), 10), PlanAction::RunTask(1)));
    let failure = Err(GvmError::Rejected { reason: "disk full".to_string() });
    match ex.task_finished(&plan, 1, &failure, 20) {
        PlanAction::Rollback(steps) => assert_eq!(steps, vec![(1, 0)]),
        other => panic!("unexpected {:?}", other),
    }
    assert_eq!(ex.execution_log.len(), 2);
    assert_eq!(ex.execution_log[1].details, "disk full");
    assert_eq!(ex.execution_log[1].action, "Run verification");
    match ex.rollback_finished() {
        PlanAction::Done(Err(e)) => assert_eq!(e.message(), "Task execution failed, rollback completed"),
        other => panic!("unexpected {:?}", other),
    }
    let mut ex = TaskExecutor::new(2);
    ex.task_finished(&plan, 0, &Ok(()), 10);
    assert!(matches!(ex.task_finished(&plan, 1, &Ok(()), 1234), PlanAction::Done(Ok(()))));
    assert_eq!(ex.execution_log[2].details, "All 2 tasks completed in 1.23s");
}
