use tidepool_gvm::downloader::{format_file_size, ChunkInfo, DownloadConfig};
use tidepool_gvm::error::{ErrorUtils, IoErrorKind};
use tidepool_gvm::go::{DirEntry, GoManager};
use tidepool_gvm::paths::{join, path_file_name};
use tidepool_gvm::platform::PlatformInfo;
use tidepool_gvm::progress_flat::{self, BasicProgress};
use tidepool_gvm::text::contains_text;
use tidepool_gvm::ui::interactive::{validate_version_format, ConflictAction};
use tidepool_gvm::ui::theme::{
    detect_theme, supports_color, supports_unicode, ColorScheme, GvmTheme, IconSet, TermColor, ThemeKind,
    ThemeManager,
};
use tidepool_gvm::ui_flat::{self, format_duration};
use tidepool_gvm::ListInstalledRequest;
use tidepool_gvm::ui::interactive::format_version_with_info;

#[test]
fn test_chunk_info_creation() {
    let chunk = ChunkInfo::new(0, 0, 1023);
    assert_eq!(chunk.index, 0);
    assert_eq!(chunk.start, 0);
    assert_eq!(chunk.end, 1023);
    assert_eq!(chunk.size, 1024);
}

#[test]
fn test_format_file_size() {
    assert_eq!(format_file_size(0), "0 B");
    assert_eq!(format_file_size(512), "512 B");
    assert_eq!(format_file_size(1024), "1.0 KB");
    assert_eq!(format_file_size(1536), "1.5 KB");
    assert_eq!(format_file_size(1024 * 1024), "1.0 MB");
    assert_eq!(format_file_size(1024 * 1024 * 1024), "1.0 GB");
}

#[test]
fn test_io_error_messages() {
    assert_eq!(
        ErrorUtils::io_error_to_message(IoErrorKind::NotFound, "not found"),
        "File or directory not found"
    );
    assert_eq!(
        ErrorUtils::io_error_to_message(IoErrorKind::PermissionDenied, "permission denied"),
        "Permission denied"
    );
}

#[test]
fn test_platform_detection() {
    let platform = PlatformInfo::detect("linux", "x86_64");
    assert!(!platform.os.is_empty());
    assert!(!platform.arch.is_empty());
    assert!(!platform.extension.is_empty());
}

#[test]
fn test_archive_filename() {
    let platform = PlatformInfo::detect("linux", "x86_64");
    let filename = platform.archive_filename("1.21.0");
    assert!(filename.starts_with("go1.21.0."));
    assert!(filename.contains(&platform.os));
    assert!(filename.contains(&platform.arch));
    assert!(filename.ends_with(&platform.extension));
}

#[test]
fn test_go_executable_name() {
    assert_eq!(PlatformInfo::go_executable_name("windows"), "go.exe");
    assert_eq!(PlatformInfo::go_executable_name("linux"), "go");
}

#[test]
fn progress_flat_test_format_size() {
    assert_eq!(progress_flat::format_size(1024), "1.0KB");
    assert_eq!(progress_flat::format_size(1048576), "1.0MB");
    assert_eq!(progress_flat::format_size(500), "500 B");
}

#[test]
fn test_basic_progress_creation() {
    let progress = BasicProgress::new("Testing".to_string(), false);
    assert_eq!(progress.label, "Testing");
}

#[test]
fn test_conflict_action_description() {
    assert_eq!(ConflictAction::Skip.description(), "Skip installation (keep existing)");
    assert_eq!(ConflictAction::Overwrite.description(), "Overwrite existing version");
    assert_eq!(ConflictAction::Backup.description(), "Backup existing and install new");
    assert_eq!(ConflictAction::Cancel.description(), "Cancel operation");
}

#[test]
fn test_version_validation() {
    assert!(validate_version_format("1.21.3"));
    assert!(validate_version_format("1.20"));
    assert!(validate_version_format("2"));
    assert!(!validate_version_format(""));
    assert!(!validate_version_format("1.21.3.4"));
    assert!(!validate_version_format("1.a.3"));
}

#[test]
fn test_icon_sets() {
    let unicode = IconSet::unicode();
    let ascii = IconSet::ascii();
    let minimal = IconSet::minimal();

    assert_eq!(unicode.success, "✅");
    assert_eq!(ascii.success, "[✓]");
    assert_eq!(minimal.success, "[OK]");
}

#[test]
fn ui_flat_test_format_size() {
    assert_eq!(ui_flat::format_size(1024), "1.0 KB");
    assert_eq!(ui_flat::format_size(1048576), "1.0 MB");
    assert_eq!(ui_flat::format_size(500), "500 B");
}

#[test]
fn test_format_duration() {
    assert_eq!(format_duration(30), "30s");
    assert_eq!(format_duration(90), "1m30s");
    assert_eq!(format_duration(3661), "1h1m");
}

#[test]
fn test_environment_variable_generation() {
    let install_path = "/test/go/1.21.0";
    let bin_path = join(install_path, "bin");
    assert_eq!(install_path, "/test/go/1.21.0");
    assert_eq!(bin_path, "/test/go/1.21.0/bin");
}

#[test]
fn test_shell_detection_logic() {
    let shell_paths = vec![
        ("/bin/bash", "bash"),
        ("/usr/bin/zsh", "zsh"),
        ("/usr/bin/fish", "fish"),
        ("/usr/bin/nu", "nu"),
    ];

    for (shell_path, expected_shell) in shell_paths {
        assert!(
            contains_text(shell_path, expected_shell),
            "Shell 路径 {} 应该包含 {}",
            shell_path,
            expected_shell
        );
    }
}

#[test]
fn test_unix_environment_setup() {
    let install_path = "/home/user/.gvm/versions/1.21.0";
    let bin_path = join(install_path, "bin");
    assert!(install_path.starts_with('/'));
    assert_eq!(path_file_name(&bin_path), Some("bin".to_string()));
}

#[test]
fn test_cross_platform_paths() {
    let test_paths = vec!["/home/user/.gvm/versions/1.21.0", "C:\\gvm\\versions\\1.21.0", "/opt/go/1.19.3"];
    for path_str in test_paths {
        let bin_path = join(path_str, "bin");
        assert!(bin_path.ends_with("bin"));
        assert!(contains_text(path_str, "go") || contains_text(path_str, "gvm"));
    }
}

#[test]
fn test_version_manager_integration() {
    let manager = GoManager::new();
    let request = ListInstalledRequest { base_dir: "/tmp/gvm-empty-versions".to_string() };
    let entries: Vec<DirEntry> = Vec::new();
    let version_list =
        manager.list_installed(request, true, entries, "linux", "x86_64");
    assert_eq!(version_list.versions.len(), 0, "新目录应该没有已安装的版本");
}

#[test]
fn test_format_version_with_info() {

    let formatted = format_version_with_info("1.21.3", Some(1048576), true, "(installed)");
    assert!(formatted.contains("1.21.3"));
    assert!(formatted.contains("(installed)"));
    assert!(formatted.contains("1.0MB"));
}

#[test]
fn test_downloader_creation() {
    let config = tidepool_gvm::downloader::DownloadConfig::default();
    assert!(config.enable_chunked_download);
    assert_eq!(config.concurrent_connections, 4);
    assert_eq!(config.min_chunk_size, 1024 * 1024);
}

#[test]
fn test_custom_config() {
    let config = tidepool_gvm::downloader::DownloadConfig {
        concurrent_connections: 8,
        min_chunk_size: 512 * 1024,
        enable_chunked_download: false,
        ..Default::default()
    };
    assert_eq!(config.concurrent_connections, 8);
    assert_eq!(config.min_chunk_size, 512 * 1024);
    assert!(!config.enable_chunked_download);
}


#[test]
fn test_color_scheme_creation() {
    let default_scheme = ColorScheme::default();
    assert_eq!(default_scheme.primary, TermColor::Cyan);
    assert_eq!(default_scheme.success, TermColor::Green);
    assert_eq!(default_scheme.error, TermColor::Red);
}

#[test]
fn test_theme_manager() {
    let mut manager = ThemeManager::new(ThemeKind::Default);
    assert!(matches!(manager.current().colors.primary, TermColor::Cyan | TermColor::Color256(_)));
    manager.switch_theme(GvmTheme::dark());
    assert_eq!(manager.current().colors.primary, TermColor::Color256(39));
}

#[test]
fn test_download_config_validation() {
    let config = DownloadConfig::default();
    assert!(config.timeout_secs > 0);
    assert!(config.connect_timeout_secs > 0);
    assert!(config.concurrent_connections > 0);
    assert!(config.min_chunk_size > 0);
    assert!(config.max_retries > 0);
    assert!(config.retry_delay_ms > 0);
}

#[test]
fn test_utils() {
    let colors = supports_color(false, Some("xterm-256color"));
    let unicode = supports_unicode(Some("en_US.UTF-8"), None, "linux", colors);
    let _ = detect_theme(colors, true);
    assert!(colors);
    assert!(unicode);
    assert!(!supports_color(true, Some("xterm-256color")));
}
