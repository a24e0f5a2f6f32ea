//! Tidepool GVM: the decision logic of a Go version manager.
//!
//! The library holds what the manager computes: file names and download
//! locations, the layout of the versions directory, the choice of what to do
//! on install, switch and uninstall, the split of a download into ranges,
//! human-readable sizes and durations, and the installation plan. The program
//! around it performs the file system and network work.
pub mod text;
pub mod checksum;
pub mod units;
pub mod paths;
pub mod platform;
pub mod error;
pub mod config;
pub mod progress_flat;
pub mod ui_flat;
pub mod go;
pub mod downloader;
pub mod ui;
pub mod progress;
pub mod install;
pub mod commands;
pub mod cli;

use vstd::prelude::*;
use crate::go::GoVersionInfo;

verus! {

/// Installation request
#[derive(Debug, Clone)]
pub struct InstallRequest {
    pub version: String,
    pub install_dir: String,
    pub download_dir: String,
    pub force: bool,
}

/// Switch request
#[derive(Debug, Clone)]
pub struct SwitchRequest {
    pub version: String,
    pub base_dir: String,
    pub global: bool,
    pub force: bool,
}

/// Uninstall request
#[derive(Debug, Clone)]
pub struct UninstallRequest {
    pub version: String,
    pub base_dir: String,
}

/// List installed versions request
#[derive(Debug, Clone)]
pub struct ListInstalledRequest {
    pub base_dir: String,
}

/// Status request
#[derive(Debug, Clone)]
pub struct StatusRequest {
    pub base_dir: Option<String>,
}

/// Runtime status: the active version, the target of the `current` link, and
/// the environment variables that the active version needs.
#[derive(Debug, Clone)]
pub struct RuntimeStatus {
    pub current_version: Option<String>,
    pub current_path: Option<String>,
    pub environment_vars: Vec<(String, String)>,
}

/// Version list
#[derive(Debug, Clone)]
pub struct VersionList {
    pub versions: Vec<GoVersionInfo>,
    pub total_count: usize,
}

/// The result of an installation.
#[derive(Debug, Clone)]
pub struct VersionInfo {
    pub version: String,
    pub os: String,
    pub arch: String,
    pub url: String,
    pub sha256: String,
    pub is_installed: bool,
    pub path: String,
}

} // verus!
