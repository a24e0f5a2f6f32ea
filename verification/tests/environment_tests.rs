use tidepool_gvm::commands::{self, UiLine};
use tidepool_gvm::config::{Config, DirCreation};
use tidepool_gvm::error::GvmError;
use tidepool_gvm::go::{path_list_separator, DirEntry, GoManager, LinkState};
use tidepool_gvm::progress::coordinator::install_with_fallback;
use tidepool_gvm::progress::planner::InstallPlanner;
use tidepool_gvm::progress::simple_install::switched_to_existing;
use tidepool_gvm::progress::validator::ValidationEngine;
use tidepool_gvm::progress::tasks::DependencyType;
use tidepool_gvm::progress::types::TaskId;
use tidepool_gvm::ListInstalledRequest;

fn linked_to(target: &str) -> LinkState {
    LinkState { exists: true, is_symlink: true, target: Some(target.to_string()) }
}

fn var<'a>(vars: &'a [(String, String)], key: &str) -> Option<&'a str> {
    vars.iter().find(|(k, _)| k == key).map(|(_, v)| v.as_str())
}

#[test]
fn status_sets_goroot_gopath_and_path() {
    let m = GoManager::new();
    let link = linked_to("/b/1.21.3");
    let s = m.status("/b", &link, true, "/usr/bin", None, Some("/home/u"), "linux");
    assert_eq!(s.current_version.as_deref(), Some("1.21.3"));
    let keys: Vec<&str> = s.environment_vars.iter().map(|(k, _)| k.as_str()).collect();
    assert_eq!(keys, vec!["GOROOT", "GOPATH", "PATH"]);
    assert_eq!(var(&s.environment_vars, "GOROOT"), Some("/b/1.21.3"));
    assert_eq!(var(&s.environment_vars, "GOPATH"), Some("/home/u/go"));
    assert_eq!(var(&s.environment_vars, "PATH"), Some("/b/1.21.3/bin:/usr/bin"));

    let s = m.status("/b", &link, true, "C:\\bin", Some("D:\\gopath"), Some("/home/u"), "windows");
    assert_eq!(var(&s.environment_vars, "GOPATH"), Some("D:\\gopath"));
    assert_eq!(var(&s.environment_vars, "PATH"), Some("/b/1.21.3/bin;C:\\bin"));

    let s = m.status("/b", &link, true, "", None, None, "macos");
    assert_eq!(var(&s.environment_vars, "GOPATH"), None);
    assert_eq!(s.environment_vars.len(), 2);

    let s = m.status("/b", &link, false, "/usr/bin", None, Some("/home/u"), "linux");
    assert!(s.environment_vars.is_empty());
    assert_eq!(path_list_separator("linux"), ":");
    assert_eq!(path_list_separator("windows"), ";");
}

#[test]
fn configuration_fails_when_a_directory_cannot_be_created() {
    let c = Config::new(Some("/proc/gvm"), None, None, None, None).unwrap();
    let todo: Vec<DirCreation> = c.ensure_directories(false, false, false);
    assert_eq!(todo.len(), 3);
    let outcomes = vec![Err("Permission denied".to_string())];
    match c.clone().prepared(&todo, &outcomes) {
        Err(e) => assert_eq!(e.message(), "Failed to create root directory /proc/gvm: Permission denied"),
        Ok(_) => panic!("a failed creation was accepted"),
    }
    let outcomes = vec![Ok(()), Ok(()), Err("disk full".to_string())];
    match c.clone().prepared(&todo, &outcomes) {
        Err(e) => assert_eq!(e.message(), "Failed to create cache directory /proc/gvm/cache: disk full"),
        Ok(_) => panic!("a failed creation was accepted"),
    }
    let ready = c.prepared(&todo, &vec![Ok(()), Ok(()), Ok(())]).unwrap();
    assert_eq!(ready.versions_path, "/proc/gvm/versions");
}

#[test]
fn listing_reports_an_unreadable_versions_directory() {
    let m = GoManager::new();
    let req = || ListInstalledRequest { base_dir: "/v".to_string() };
    match m.list_installed_from(req(), true, Err("Permission denied".to_string()), "linux", "x86_64") {
        Err(e) => assert_eq!(e.message(), "Failed to read directory: Permission denied"),
        Ok(_) => panic!("an unreadable directory was listed"),
    }
    let empty = m.list_installed_from(req(), false, Err("missing".to_string()), "linux", "x86_64").unwrap();
    assert_eq!(empty.total_count, 0);
    let entries = vec![
        DirEntry { name: "1.22.0".to_string(), is_dir: true },
        DirEntry { name: "current".to_string(), is_dir: true },
        DirEntry { name: "1.21.0".to_string(), is_dir: true },
    ];
    let list = m.list_installed_from(req(), true, Ok(entries), "linux", "x86_64").unwrap();
    let names: Vec<&str> = list.versions.iter().map(|v| v.version.as_str()).collect();
    assert_eq!(names, vec!["1.21.0", "1.22.0"]);
    let (lines, result) = commands::list(false, Err(GvmError::Io { detail: "boom".to_string() }), &None);
    assert!(matches!(&lines[0], UiLine::Error(s) if s == "Failed to list versions: boom"));
    assert!(result.is_err());
}

#[test]
fn quiet_mode_shows_only_errors() {
    let lines = vec![
        UiLine::Info("a".to_string()),
        UiLine::Error("b".to_string()),
        UiLine::Hint("c".to_string()),
        UiLine::Error("d".to_string()),
    ];
    let quiet = commands::for_output(lines.clone(), true);
    assert_eq!(quiet.len(), 2);
    assert!(matches!(&quiet[0], UiLine::Error(s) if s == "b"));
    assert!(matches!(&quiet[1], UiLine::Error(s) if s == "d"));
    assert_eq!(commands::for_output(lines, false).len(), 4);
}

#[test]
fn commands_fail_when_their_operation_fails() {
    let (_, r) = commands::switch("1.9", false, Err(GvmError::NotInstalled { version: "1.9".to_string() }));
    assert!(matches!(r, Err(GvmError::NotInstalled { .. })));
    let (_, r) = commands::status(Err(GvmError::HomeDirUnknown));
    assert!(matches!(r, Err(GvmError::HomeDirUnknown)));
    let (_, r) = commands::info("1.9", Err(GvmError::GoDirMissing));
    assert!(matches!(r, Err(GvmError::GoDirMissing)));
}

#[test]
fn fallback_warns_twice() {
    let w = install_with_fallback(&Err(GvmError::CircularDependency));
    assert_eq!(
        w,
        vec![
            "Enhanced installation failed, falling back to basic installation".to_string(),
            "Error: Circular dependency detected in tasks".to_string(),
        ]
    );
}

#[test]
fn plan_dependencies_are_sequential() {
    let planner = InstallPlanner::new("linux", "x86_64");
    let plan = planner.create_detailed_plan("1.21.0", "/v", "/c", false, false).unwrap();
    assert!(!plan.dependencies.is_empty());
    assert!(plan.dependencies.iter().all(|d| d.dependency_type == DependencyType::Sequential));
}

#[test]
fn task_ids_are_equal_when_their_texts_are() {
    assert_eq!(TaskId::new("precheck"), TaskId::new("precheck"));
    assert_ne!(TaskId::new("precheck"), TaskId::new("download"));
    assert_eq!(TaskId::new("x").as_str(), "x");
}

#[test]
fn switching_to_an_installed_version_always_succeeds() {
    let (lines, result) = switched_to_existing("1.21.0", &Ok(()));
    assert!(result.is_ok());
    assert!(matches!(&lines[0], UiLine::Info(s) if s == "Go 1.21.0 is already installed, switching to it"));
    assert!(matches!(&lines[1], UiLine::Success(s) if s == "Successfully switched to Go 1.21.0"));
    let failed = Err(GvmError::NotInstalled { version: "1.21.0".to_string() });
    let (lines, result) = switched_to_existing("1.21.0", &failed);
    assert!(result.is_ok());
    assert!(matches!(&lines[1], UiLine::Error(s) if s == "Failed to switch version: Go version 1.21.0 is not installed"));
}

#[test]
fn plain_versions_pass_the_format_check() {
    let engine = ValidationEngine::new();
    assert!(engine.check_version_format("1.21.3").is_ok());
    assert!(engine.check_version_format("1.21+x").is_err());
}
