//! Display helpers: icons with a plain fallback, and the message texts.
use vstd::prelude::*;
use crate::text::str_equal;

verus! {

/// Icons with a fallback for terminals that lack emoji.
pub struct Icons;

/// Whether the plain icons are used: as `GVM_ICON_STYLE` says when it is
/// `ascii` or `unicode`, otherwise when `TERM` is empty or unset, when running
/// in Windows Terminal (`WT_SESSION` set), or on Windows.
pub open spec fn ascii_icons(icon_style: Option<Seq<char>>, term: Seq<char>, wt_session: bool, rust_os: Seq<char>) -> bool {
    if icon_style == Some("ascii"@) {
        true
    } else if icon_style == Some("unicode"@) {
        false
    } else {
        term.len() == 0 || wt_session || rust_os == "windows"@
    }
}

/// The icon for the style chosen.
pub open spec fn icon(ascii: bool, plain: Seq<char>, fancy: Seq<char>) -> Seq<char> {
    if ascii { plain } else { fancy }
}

impl Icons {
    /// Whether the plain icons are used, from `GVM_ICON_STYLE`, `TERM`
    /// (empty when unset), whether `WT_SESSION` is set, and the system name.
    pub fn should_use_ascii(icon_style: Option<&str>, term: &str, wt_session: bool, rust_os: &str) -> (res: bool)
        ensures
            res == ascii_icons(crate::config::opt_view(icon_style), term@, wt_session, rust_os@),
    {
        match icon_style {
            Some(st) => {
                if str_equal(st, "ascii") {
                    return true;
                }
                if str_equal(st, "unicode") {
                    return false;
                }
            },
            None => {},
        }
        term.unicode_len() == 0 || wt_session || str_equal(rust_os, "windows")
    }

    /// The success icon.
    pub fn success(ascii: bool) -> (res: &'static str)
        ensures
            res@ == icon(ascii, "✓"@, "✅"@),
    {
        if ascii {
            "✓"
        } else {
            "✅"
        }
    }

    /// The error icon.
    pub fn error(ascii: bool) -> (res: &'static str)
        ensures
            res@ == icon(ascii, "✗"@, "❌"@),
    {
        if ascii {
            "✗"
        } else {
            "❌"
        }
    }

    /// The warning icon.
    pub fn warning(ascii: bool) -> (res: &'static str)
        ensures
            res@ == icon(ascii, "⚠"@, "⚠️"@),
    {
        if ascii {
            "⚠"
        } else {
            "⚠️"
        }
    }

    /// The info icon.
    pub fn info(ascii: bool) -> (res: &'static str)
        ensures
            res@ == icon(ascii, "ℹ"@, "ℹ️"@),
    {
        if ascii {
            "ℹ"
        } else {
            "ℹ️"
        }
    }

    /// The hint icon.
    pub fn hint(ascii: bool) -> (res: &'static str)
        ensures
            res@ == icon(ascii, "💡"@, "💡"@),
    {
        if ascii {
            "💡"
        } else {
            "💡"
        }
    }

    /// The package icon.
    pub fn package(ascii: bool) -> (res: &'static str)
        ensures
            res@ == icon(ascii, "📦"@, "📦"@),
    {
        if ascii {
            "📦"
        } else {
            "📦"
        }
    }

    /// The download icon.
    pub fn download(ascii: bool) -> (res: &'static str)
        ensures
            res@ == icon(ascii, "⬇"@, "⬇️"@),
    {
        if ascii {
            "⬇"
        } else {
            "⬇️"
        }
    }

    /// The install icon.
    pub fn install(ascii: bool) -> (res: &'static str)
        ensures
            res@ == icon(ascii, "⚙"@, "⚙️"@),
    {
        if ascii {
            "⚙"
        } else {
            "⚙️"
        }
    }

    /// The current icon.
    pub fn current(ascii: bool) -> (res: &'static str)
        ensures
            res@ == icon(ascii, "★"@, "⭐"@),
    {
        if ascii {
            "★"
        } else {
            "⭐"
        }
    }

    /// The arrow right icon.
    pub fn arrow_right(ascii: bool) -> (res: &'static str)
        ensures
            res@ == icon(ascii, "→"@, "➡️"@),
    {
        if ascii {
            "→"
        } else {
            "➡️"
        }
    }

    /// The rocket icon.
    pub fn rocket(ascii: bool) -> (res: &'static str)
        ensures
            res@ == icon(ascii, "🚀"@, "🚀"@),
    {
        if ascii {
            "🚀"
        } else {
            "🚀"
        }
    }

    /// The trash icon.
    pub fn trash(ascii: bool) -> (res: &'static str)
        ensures
            res@ == icon(ascii, "🗑"@, "🗑️"@),
    {
        if ascii {
            "🗑"
        } else {
            "🗑️"
        }
    }

    /// The check mark.
    pub fn check() -> (res: &'static str)
        ensures
            res@ == "✓"@,
    {
        "✓"
    }

    /// The cross mark.
    pub fn cross() -> (res: &'static str)
        ensures
            res@ == "✗"@,
    {
        "✗"
    }
}

/// Message templates for consistent output.
pub struct Messages;

impl Messages {
    /// `Installing Go <version>`
    pub fn installing_go(version: &str) -> (res: String)
        ensures
            res@ == "Installing Go "@ + version@,
    {
        let mut s = String::from_str("Installing Go ");
        s.append(version);
        s
    }

    /// `Uninstalling Go <version>`
    pub fn uninstalling_go(version: &str) -> (res: String)
        ensures
            res@ == "Uninstalling Go "@ + version@,
    {
        let mut s = String::from_str("Uninstalling Go ");
        s.append(version);
        s
    }

    /// `Go <version> has been uninstalled successfully`
    pub fn go_uninstalled_successfully(version: &str) -> (res: String)
        ensures
            res@ == "Go "@ + version@ + " has been uninstalled successfully"@,
    {
        let mut s = String::from_str("Go ");
        s.append(version);
        s.append(" has been uninstalled successfully");
        s
    }

    /// `Go <version> is not installed`
    pub fn go_not_installed(version: &str) -> (res: String)
        ensures
            res@ == "Go "@ + version@ + " is not installed"@,
    {
        let mut s = String::from_str("Go ");
        s.append(version);
        s.append(" is not installed");
        s
    }

    /// `Failed to uninstall Go <version>: <error>`
    pub fn uninstall_failed(version: &str, error: &str) -> (res: String)
        ensures
            res@ == "Failed to uninstall Go "@ + version@ + ": "@ + error@,
    {
        let mut s = String::from_str("Failed to uninstall Go ");
        s.append(version);
        s.append(": ");
        s.append(error);
        s
    }

    /// `Cannot uninstall Go <version> - it is currently active`
    pub fn cannot_uninstall_current_version(version: &str) -> (res: String)
        ensures
            res@ == "Cannot uninstall Go "@ + version@ + " - it is currently active"@,
    {
        let mut s = String::from_str("Cannot uninstall Go ");
        s.append(version);
        s.append(" - it is currently active");
        s
    }

    /// `Switch to another version first or manually remove the symlink`
    pub fn clear_current_symlink_hint() -> (res: String)
        ensures
            res@ == "Switch to another version first or manually remove the symlink"@,
    {
        let mut s = String::from_str("Switch to another version first or manually remove the symlink");
        s
    }

    /// `Installed Go Versions`
    pub fn installed_go_versions() -> (res: String)
        ensures
            res@ == "Installed Go Versions"@,
    {
        let mut s = String::from_str("Installed Go Versions");
        s
    }

    /// `Available Go Versions`
    pub fn available_go_versions() -> (res: String)
        ensures
            res@ == "Available Go Versions"@,
    {
        let mut s = String::from_str("Available Go Versions");
        s
    }

    /// `No Go versions found`
    pub fn no_go_versions_found() -> (res: String)
        ensures
            res@ == "No Go versions found"@,
    {
        let mut s = String::from_str("No Go versions found");
        s
    }

    /// `Installation directory not found: <path>`
    pub fn installation_directory_not_found(path: &str) -> (res: String)
        ensures
            res@ == "Installation directory not found: "@ + path@,
    {
        let mut s = String::from_str("Installation directory not found: ");
        s.append(path);
        s
    }

    /// `gvm install <version>`
    pub fn install_version_hint() -> (res: String)
        ensures
            res@ == "gvm install <version>"@,
    {
        let mut s = String::from_str("gvm install <version>");
        s
    }

    /// `gvm use <version>`
    pub fn use_version_hint() -> (res: String)
        ensures
            res@ == "gvm use <version>"@,
    {
        let mut s = String::from_str("gvm use <version>");
        s
    }

    /// `Failed to list versions: <error>`
    pub fn error_listing_versions(error: &str) -> (res: String)
        ensures
            res@ == "Failed to list versions: "@ + error@,
    {
        let mut s = String::from_str("Failed to list versions: ");
        s.append(error);
        s
    }

    /// `Failed to get available versions: <error>`
    pub fn error_getting_available_versions(error: &str) -> (res: String)
        ensures
            res@ == "Failed to get available versions: "@ + error@,
    {
        let mut s = String::from_str("Failed to get available versions: ");
        s.append(error);
        s
    }

    /// `Visit https://go.dev/dl/ for complete version list`
    pub fn visit_go_website() -> (res: String)
        ensures
            res@ == "Visit https://go.dev/dl/ for complete version list"@,
    {
        let mut s = String::from_str("Visit https://go.dev/dl/ for complete version list");
        s
    }

    /// `gvm install <version>`
    pub fn install_with_hint() -> (res: String)
        ensures
            res@ == "gvm install <version>"@,
    {
        let mut s = String::from_str("gvm install <version>");
        s
    }

    /// `Successfully switched to Go <version>`
    pub fn switched_to_go_successfully(version: &str) -> (res: String)
        ensures
            res@ == "Successfully switched to Go "@ + version@,
    {
        let mut s = String::from_str("Successfully switched to Go ");
        s.append(version);
        s
    }

    /// `Failed to switch version: <error>`
    pub fn switch_failed(error: &str) -> (res: String)
        ensures
            res@ == "Failed to switch version: "@ + error@,
    {
        let mut s = String::from_str("Failed to switch version: ");
        s.append(error);
        s
    }

    /// `Failed to get status: <error>`
    pub fn error_getting_status(error: &str) -> (res: String)
        ensures
            res@ == "Failed to get status: "@ + error@,
    {
        let mut s = String::from_str("Failed to get status: ");
        s.append(error);
        s
    }

    /// `Removing existing Go <version> installation`
    pub fn removing_existing_installation(version: &str) -> (res: String)
        ensures
            res@ == "Removing existing Go "@ + version@ + " installation"@,
    {
        let mut s = String::from_str("Removing existing Go ");
        s.append(version);
        s.append(" installation");
        s
    }

    /// `Found cached download for Go <version>`
    pub fn found_cached_download(version: &str) -> (res: String)
        ensures
            res@ == "Found cached download for Go "@ + version@,
    {
        let mut s = String::from_str("Found cached download for Go ");
        s.append(version);
        s
    }

    /// `Installation failed: <error>`
    pub fn installation_failed(error: &str) -> (res: String)
        ensures
            res@ == "Installation failed: "@ + error@,
    {
        let mut s = String::from_str("Installation failed: ");
        s.append(error);
        s
    }

    /// `Extracting archive`
    pub fn extraction_progress() -> (res: String)
        ensures
            res@ == "Extracting archive"@,
    {
        let mut s = String::from_str("Extracting archive");
        s
    }

    /// `Downloading Go archive`
    pub fn download_progress() -> (res: String)
        ensures
            res@ == "Downloading Go archive"@,
    {
        let mut s = String::from_str("Downloading Go archive");
        s
    }

    /// `Verifying download integrity`
    pub fn verification_progress() -> (res: String)
        ensures
            res@ == "Verifying download integrity"@,
    {
        let mut s = String::from_str("Verifying download integrity");
        s
    }
}

} // verus!
