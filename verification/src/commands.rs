//! The commands of the command line, as what they show.
//!
//! Each command takes the outcome of the operation it runs and gives the
//! lines to show: a success, an error, a warning, a note, a hint, a section
//! title, a key and its value, an item of a list, or an empty line.
use vstd::prelude::*;
use crate::error::{error_text, GvmError};
use crate::go::{DirEntry, GoVersionInfo};
use crate::text::{contains_sub, contains_text, decimal, push_decimal, sort_strings, sorted_lex, starts_with, str_equal, views};
use crate::{RuntimeStatus, VersionInfo, VersionList};

verus! {

/// A line of output.
#[derive(Debug, Clone)]
pub enum UiLine {
    Success(String),
    Error(String),
    Warning(String),
    Info(String),
    Hint(String),
    Section(String),
    KeyValue(String, String),
    /// An item of a list, marked when it is the active version.
    ListItem(String, bool),
    Newline,
}

/// A line of output, as text.
pub enum Shown {
    Success(Seq<char>),
    Error(Seq<char>),
    Warning(Seq<char>),
    Info(Seq<char>),
    Hint(Seq<char>),
    Section(Seq<char>),
    KeyValue(Seq<char>, Seq<char>),
    ListItem(Seq<char>, bool),
    Newline,
}

/// The text of a line.
pub open spec fn shown(l: UiLine) -> Shown {
    match l {
        UiLine::Success(s) => Shown::Success(s@),
        UiLine::Error(s) => Shown::Error(s@),
        UiLine::Warning(s) => Shown::Warning(s@),
        UiLine::Info(s) => Shown::Info(s@),
        UiLine::Hint(s) => Shown::Hint(s@),
        UiLine::Section(s) => Shown::Section(s@),
        UiLine::KeyValue(k, v) => Shown::KeyValue(k@, v@),
        UiLine::ListItem(s, c) => Shown::ListItem(s@, c),
        UiLine::Newline => Shown::Newline,
    }
}

/// The text of lines.
pub open spec fn shown_all(v: Seq<UiLine>) -> Seq<Shown> {
    v.map_values(|l: UiLine| shown(l))
}

/// What installing shows.
pub open spec fn install_lines(version: Seq<char>, outcome: Result<VersionInfo, GvmError>) -> Seq<Shown> {
    match outcome {
        Ok(info) => seq![
            Shown::Success("Go "@ + info.version@ + " installed successfully"@),
            Shown::Info("Installation path: "@ + info.path@),
            Shown::Hint("Use 'gvm use "@ + version + "' to activate this version"@),
        ],
        Err(e) => seq![Shown::Error("Failed to install Go "@ + version + ": "@ + error_text(e))],
    }
}

/// What uninstalling shows.
pub open spec fn uninstall_lines(version: Seq<char>, outcome: Result<(), GvmError>) -> Seq<Shown> {
    seq![Shown::Info("Uninstalling Go "@ + version)] + match outcome {
        Ok(_) => seq![Shown::Success("Go "@ + version + " has been successfully uninstalled"@)],
        Err(e) => if contains_sub(error_text(e), "not installed"@) {
            seq![Shown::Warning("Go "@ + version + " is not installed"@)]
        } else if contains_sub(error_text(e), "currently active"@) {
            seq![
                Shown::Error("Cannot uninstall Go "@ + version + " - it is currently in use"@),
                Shown::Hint("Please switch to another version or remove the symbolic link manually"@),
            ]
        } else {
            seq![Shown::Error("Failed to uninstall Go "@ + version + ": "@ + error_text(e))]
        },
    }
}

/// What switching shows.
pub open spec fn switch_lines(version: Seq<char>, global: bool, outcome: Result<(), GvmError>) -> Seq<Shown> {
    match outcome {
        Ok(_) => seq![Shown::Success("Switched to Go "@ + version + " "@ + (if global { "(global)"@ } else { "(local)"@ }))],
        Err(e) => seq![
            Shown::Error("Failed to switch to Go "@ + version + ": "@ + error_text(e)),
            Shown::Hint("Ensure the version is installed and you have the correct permissions"@),
        ],
    }
}

/// The value of the first variable named `key`.
pub open spec fn env_value(vars: Seq<(String, String)>, key: Seq<char>) -> Option<Seq<char>>
    decreases vars.len(),
{
    if vars.len() == 0 {
        None
    } else if vars[0].0@ == key {
        Some(vars[0].1@)
    } else {
        env_value(vars.drop_first(), key)
    }
}

/// What the status shows.
pub open spec fn status_lines(outcome: Result<RuntimeStatus, GvmError>) -> Seq<Shown> {
    match outcome {
        Ok(status) => match status.current_version {
            Some(v) => seq![Shown::Success("Current version: Go "@ + v@)] + match env_value(status.environment_vars@, "GOROOT"@) {
                Some(root) => seq![Shown::KeyValue("Installation path"@, root)],
                None => Seq::empty(),
            } + seq![
                Shown::Info("Go environment is configured"@),
                Shown::Hint("Use 'go version' to verify the installation"@),
            ],
            None => seq![
                Shown::Warning("No active Go version found"@),
                Shown::Hint("Use 'gvm list' to see installed versions"@),
                Shown::Hint("Use 'gvm use <version>' to activate a version"@),
            ],
        },
        Err(e) => seq![
            Shown::Error("Failed to get status: "@ + error_text(e)),
            Shown::Hint("Please check if Go is installed correctly"@),
        ],
    }
}

/// The items of a version listing, the active version marked.
pub open spec fn version_items(versions: Seq<GoVersionInfo>, current: Option<Seq<char>>) -> Seq<Shown> {
    versions.map_values(|v: GoVersionInfo| Shown::ListItem(v.version@, current == Some(v.version@)))
}

/// What listing the installed versions shows.
pub open spec fn installed_listing_lines(outcome: Result<VersionList, GvmError>, current: Option<Seq<char>>) -> Seq<Shown> {
    match outcome {
        Ok(list) => if list.versions@.len() == 0 {
            seq![
                Shown::Warning("No installed Go versions found"@),
                Shown::Hint("Use 'gvm install <version>' to install a new version"@),
            ]
        } else if list.versions@.len() > 1 {
            version_items(list.versions@, current)
                + seq![Shown::Info("Total: "@ + decimal(list.versions@.len()) + " versions"@)]
        } else {
            version_items(list.versions@, current)
        },
        Err(e) => seq![Shown::Error("Failed to list versions: "@ + error_text(e))],
    }
}

/// What listing the versions available for download shows.
pub open spec fn available_listing_lines(outcome: Result<VersionList, GvmError>, current: Option<Seq<char>>) -> Seq<Shown> {
    match outcome {
        Ok(list) => (if list.versions@.len() == 0 {
            seq![Shown::Warning("No available Go versions found"@)]
        } else {
            seq![Shown::Section("Available Go Versions"@)] + version_items(list.versions@, current) + seq![
                Shown::Newline,
                Shown::Info("Total: "@ + decimal(list.total_count as nat) + " versions"@),
            ]
        }) + seq![
            Shown::Newline,
            Shown::Info("Visit https://go.dev/dl/ for a full list of versions"@),
            Shown::Hint("Use 'gvm install <version>' to install"@),
        ],
        Err(e) => seq![Shown::Error("Failed to fetch available versions: "@ + error_text(e))],
    }
}

/// What the information on a version shows.
pub open spec fn info_lines(version: Seq<char>, outcome: Result<GoVersionInfo, GvmError>) -> Seq<Shown> {
    match outcome {
        Ok(info) => seq![Shown::Info("Go "@ + info.version@ + " ("@ + info.os@ + "-"@ + info.arch@ + ")"@)] + if info.is_installed {
            seq![Shown::Success("Installed"@), Shown::Hint("To use: gvm use "@ + version)]
        } else {
            seq![Shown::Warning("Not installed"@), Shown::Hint("To install: gvm install "@ + version)]
        },
        Err(e) => seq![
            Shown::Error("Failed to get info for Go "@ + version + ": "@ + error_text(e)),
            Shown::Hint("Please ensure the version exists and is accessible"@),
        ],
    }
}

/// The names that the versions directory lists as installed versions:
/// directories whose names neither start with `.` nor are `current`.
pub open spec fn listed_names(entries: Seq<DirEntry>) -> Seq<Seq<char>>
    decreases entries.len(),
{
    if entries.len() == 0 {
        Seq::empty()
    } else {
        let rest = listed_names(entries.drop_last());
        let e = entries.last();
        if e.is_dir && !(e.name@.len() > 0 && e.name@[0] == '.') && e.name@ != "current"@ {
            rest.push(e.name@)
        } else {
            rest
        }
    }
}

/// `a` followed by `b`.
fn concat2(a: &str, b: &str) -> (res: String)
    ensures
        res@ == a@ + b@,
{
    let mut s = String::from_str(a);
    s.append(b);
    s
}

/// `a`, `b` and `c` one after the other.
fn concat3(a: &str, b: &str, c: &str) -> (res: String)
    ensures
        res@ == a@ + b@ + c@,
{
    let mut s = String::from_str(a);
    s.append(b);
    s.append(c);
    s
}

/// "Total: <n> versions".
fn total_text(n: usize) -> (res: String)
    ensures
        res@ == "Total: "@ + decimal(n as nat) + " versions"@,
{
    let mut s = String::from_str("Total: ");
    push_decimal(&mut s, n as u128);
    s.append(" versions");
    s
}

/// What installing shows, given how the installation ended.
pub fn install(version: &str, outcome: &Result<VersionInfo, GvmError>) -> (res: Vec<UiLine>)
    ensures
        shown_all(res@) == install_lines(version@, *outcome),
{
    let mut lines: Vec<UiLine> = Vec::new();
    match outcome {
        Ok(info) => {
            lines.push(UiLine::Success(concat3("Go ", info.version.as_str(), " installed successfully")));
            lines.push(UiLine::Info(concat2("Installation path: ", info.path.as_str())));
            lines.push(UiLine::Hint(concat3("Use 'gvm use ", version, "' to activate this version")));
        },
        Err(e) => {
            let msg = e.message();
            let head = concat3("Failed to install Go ", version, ": ");
            lines.push(UiLine::Error(concat2(head.as_str(), msg.as_str())));
        },
    }
    proof {
        assert(shown_all(lines@) =~= install_lines(version@, *outcome));
    }
    lines
}

/// The installed versions: the entries of the versions directory that are
/// directories, do not start with `.` and are not `current`, sorted.
pub fn list_installed(entries: &Vec<DirEntry>) -> (res: Vec<String>)
    ensures
        views(res@).to_multiset() == listed_names(entries@).to_multiset(),
        sorted_lex(views(res@)),
{
    let mut names: Vec<String> = Vec::new();
    let mut i: usize = 0;
    while i < entries.len()
        invariant
            i <= entries@.len(),
            views(names@) == listed_names(entries@.subrange(0, i as int)),
        decreases entries@.len() - i,
    {
        let e = &entries[i];
        let ghost sub = entries@.subrange(0, i + 1);
        proof {
            assert(sub.drop_last() =~= entries@.subrange(0, i as int));
            assert(sub.last() == entries@[i as int]);
            reveal_strlit(".");
        }
        let dot = starts_with(e.name.as_str(), ".");
        proof {
            if e.name@.len() > 0 && e.name@[0] == '.' {
                assert(e.name@.subrange(0, 1) =~= "."@);
            }
            if dot {
                assert(e.name@.subrange(0, 1)[0] == e.name@[0]);
            }
        }
        if e.is_dir && !dot && !str_equal(e.name.as_str(), "current") {
            names.push(e.name.clone());
            proof {
                assert(views(names@) =~= listed_names(entries@.subrange(0, i as int)).push(e.name@));
            }
        }
        i = i + 1;
    }
    assert(entries@.subrange(0, i as int) =~= entries@);
    sort_strings(names)
}

/// How a command ends: with the failure of what it did, if it failed.
pub open spec fn outcome_result<T>(outcome: Result<T, GvmError>) -> Result<(), GvmError> {
    match outcome {
        Ok(_) => Ok(()),
        Err(e) => Err(e),
    }
}

/// How a command ends, given how what it did went.
fn unit_result<T>(outcome: Result<T, GvmError>) -> (res: Result<(), GvmError>)
    ensures
        res == outcome_result(outcome),
{
    match outcome {
        Ok(_) => Ok(()),
        Err(e) => Err(e),
    }
}

/// What uninstalling shows, given how it went.
pub fn uninstall(version: &str, outcome: Result<(), GvmError>) -> (res: (Vec<UiLine>, Result<(), GvmError>))
    ensures
        res.1 == outcome,
        shown_all(res.0@) == uninstall_lines(version@, outcome),
{
    let mut lines: Vec<UiLine> = Vec::new();
    lines.push(UiLine::Info(concat2("Uninstalling Go ", version)));
    match &outcome {
        Ok(()) => {
            lines.push(UiLine::Success(concat3("Go ", version, " has been successfully uninstalled")));
        },
        Err(e) => {
            let msg = e.message();
            if contains_text(msg.as_str(), "not installed") {
                lines.push(UiLine::Warning(concat3("Go ", version, " is not installed")));
            } else if contains_text(msg.as_str(), "currently active") {
                lines.push(UiLine::Error(concat3("Cannot uninstall Go ", version, " - it is currently in use")));
                lines.push(UiLine::Hint(String::from_str(
                    "Please switch to another version or remove the symbolic link manually",
                )));
            } else {
                let head = concat3("Failed to uninstall Go ", version, ": ");
                lines.push(UiLine::Error(concat2(head.as_str(), msg.as_str())));
            }
        },
    }
    proof {
        assert(shown_all(lines@) =~= uninstall_lines(version@, outcome));
    }
    (lines, outcome)
}

/// What switching shows, given how it went.
pub fn switch(version: &str, global: bool, outcome: Result<(), GvmError>) -> (res: (Vec<UiLine>, Result<(), GvmError>))
    ensures
        res.1 == outcome,
        shown_all(res.0@) == switch_lines(version@, global, outcome),
{
    let mut lines: Vec<UiLine> = Vec::new();
    match &outcome {
        Ok(()) => {
            let scope = if global { "(global)" } else { "(local)" };
            let head = concat3("Switched to Go ", version, " ");
            lines.push(UiLine::Success(concat2(head.as_str(), scope)));
        },
        Err(e) => {
            let msg = e.message();
            let head = concat3("Failed to switch to Go ", version, ": ");
            lines.push(UiLine::Error(concat2(head.as_str(), msg.as_str())));
            lines.push(UiLine::Hint(String::from_str(
                "Ensure the version is installed and you have the correct permissions",
            )));
        },
    }
    proof {
        assert(shown_all(lines@) =~= switch_lines(version@, global, outcome));
    }
    (lines, outcome)
}

/// The value of the first variable named `key`.
fn env_lookup(vars: &Vec<(String, String)>, key: &str) -> (res: Option<String>)
    ensures
        match res {
            Some(v) => env_value(vars@, key@) == Some(v@),
            None => env_value(vars@, key@) is None,
        },
{
    let mut i: usize = 0;
    proof {
        assert(vars@.subrange(0, vars@.len() as int) =~= vars@);
    }
    while i < vars.len()
        invariant
            i <= vars@.len(),
            env_value(vars@, key@) == env_value(vars@.subrange(i as int, vars@.len() as int), key@),
        decreases vars@.len() - i,
    {
        let ghost rest = vars@.subrange(i as int, vars@.len() as int);
        proof {
            assert(rest.drop_first() =~= vars@.subrange(i + 1, vars@.len() as int));
            assert(rest[0] == vars@[i as int]);
        }
        if str_equal(vars[i].0.as_str(), key) {
            return Some(vars[i].1.clone());
        }
        i = i + 1;
    }
    proof {
        assert(vars@.subrange(i as int, vars@.len() as int) =~= Seq::<(String, String)>::empty());
    }
    None
}

/// What the status shows, given what was found.
pub fn status(outcome: Result<RuntimeStatus, GvmError>) -> (res: (Vec<UiLine>, Result<(), GvmError>))
    ensures
        res.1 == outcome_result(outcome),
        shown_all(res.0@) == status_lines(outcome),
{
    let mut lines: Vec<UiLine> = Vec::new();
    match &outcome {
        Ok(st) => {
            match &st.current_version {
                Some(v) => {
                    lines.push(UiLine::Success(concat2("Current version: Go ", v.as_str())));
                    if let Some(root) = env_lookup(&st.environment_vars, "GOROOT") {
                        lines.push(UiLine::KeyValue(String::from_str("Installation path"), root));
                    }
                    lines.push(UiLine::Info(String::from_str("Go environment is configured")));
                    lines.push(UiLine::Hint(String::from_str("Use 'go version' to verify the installation")));
                },
                None => {
                    lines.push(UiLine::Warning(String::from_str("No active Go version found")));
                    lines.push(UiLine::Hint(String::from_str("Use 'gvm list' to see installed versions")));
                    lines.push(UiLine::Hint(String::from_str("Use 'gvm use <version>' to activate a version")));
                },
            }
        },
        Err(e) => {
            let msg = e.message();
            lines.push(UiLine::Error(concat2("Failed to get status: ", msg.as_str())));
            lines.push(UiLine::Hint(String::from_str("Please check if Go is installed correctly")));
        },
    }
    proof {
        assert(shown_all(lines@) =~= status_lines(outcome));
    }
    (lines, unit_result(outcome))
}

/// Appends the items of a listing, the active version marked.
fn push_items(lines: &mut Vec<UiLine>, versions: &Vec<GoVersionInfo>, current: &Option<String>)
    ensures
        shown_all(final(lines)@) == shown_all(old(lines)@) + version_items(versions@, match current {
            Some(c) => Some(c@),
            None => None,
        }),
{
    let ghost cur = match current {
        Some(c) => Some(c@),
        None => None::<Seq<char>>,
    };
    let ghost start = shown_all(lines@);
    let mut i: usize = 0;
    while i < versions.len()
        invariant
            i <= versions@.len(),
            shown_all(lines@) == start + version_items(versions@.subrange(0, i as int), cur),
            cur == match current {
                Some(c) => Some(c@),
                None => None::<Seq<char>>,
            },
        decreases versions@.len() - i,
    {
        let v = &versions[i];
        let is_current = match current {
            Some(c) => str_equal(c.as_str(), v.version.as_str()),
            None => false,
        };
        let ghost prev = shown_all(lines@);
        lines.push(UiLine::ListItem(v.version.clone(), is_current));
        proof {
            assert(shown_all(lines@) =~= prev.push(Shown::ListItem(v.version@, cur == Some(v.version@))));
            assert(version_items(versions@.subrange(0, i + 1), cur) =~= version_items(versions@.subrange(0, i as int), cur).push(
                Shown::ListItem(v.version@, cur == Some(v.version@)),
            ));
            assert(shown_all(lines@) =~= start + version_items(versions@.subrange(0, i + 1), cur));
        }
        i = i + 1;
    }
    proof {
        assert(versions@.subrange(0, i as int) =~= versions@);
    }
}

/// What listing the installed versions shows.
fn list_installed_versions(outcome: &Result<VersionList, GvmError>, current: &Option<String>) -> (res: Vec<UiLine>)
    ensures
        shown_all(res@) == installed_listing_lines(*outcome, match current {
            Some(c) => Some(c@),
            None => None,
        }),
{
    let mut lines: Vec<UiLine> = Vec::new();
    match outcome {
        Ok(list) => {
            if list.versions.len() == 0 {
                lines.push(UiLine::Warning(String::from_str("No installed Go versions found")));
                lines.push(UiLine::Hint(String::from_str("Use 'gvm install <version>' to install a new version")));
            } else {
                push_items(&mut lines, &list.versions, current);
                if list.versions.len() > 1 {
                    lines.push(UiLine::Info(total_text(list.versions.len())));
                }
            }
        },
        Err(e) => {
            let msg = e.message();
            lines.push(UiLine::Error(concat2("Failed to list versions: ", msg.as_str())));
        },
    }
    proof {
        let cur = match current {
            Some(c) => Some(c@),
            None => None::<Seq<char>>,
        };
        assert(shown_all(lines@) =~= installed_listing_lines(*outcome, cur));
    }
    lines
}

/// What listing the versions available for download shows.
fn list_available_versions(outcome: &Result<VersionList, GvmError>, current: &Option<String>) -> (res: Vec<UiLine>)
    ensures
        shown_all(res@) == available_listing_lines(*outcome, match current {
            Some(c) => Some(c@),
            None => None,
        }),
{
    let mut lines: Vec<UiLine> = Vec::new();
    match outcome {
        Ok(list) => {
            let ghost cur = match current {
                Some(c) => Some(c@),
                None => None::<Seq<char>>,
            };
            if list.versions.len() == 0 {
                lines.push(UiLine::Warning(String::from_str("No available Go versions found")));
                proof {
                    assert(shown_all(lines@) =~= seq![Shown::Warning("No available Go versions found"@)]);
                }
            } else {
                lines.push(UiLine::Section(String::from_str("Available Go Versions")));
                proof {
                    assert(shown_all(lines@) =~= seq![Shown::Section("Available Go Versions"@)]);
                }
                push_items(&mut lines, &list.versions, current);
                let ghost with_items = shown_all(lines@);
                lines.push(UiLine::Newline);
                lines.push(UiLine::Info(total_text(list.total_count)));
                proof {
                    assert(shown_all(lines@) =~= with_items + seq![
                        Shown::Newline,
                        Shown::Info("Total: "@ + decimal(list.total_count as nat) + " versions"@),
                    ]);
                }
            }
            let ghost body = shown_all(lines@);
            lines.push(UiLine::Newline);
            lines.push(UiLine::Info(String::from_str("Visit https://go.dev/dl/ for a full list of versions")));
            lines.push(UiLine::Hint(String::from_str("Use 'gvm install <version>' to install")));
            proof {
                assert(shown_all(lines@) =~= body + seq![
                    Shown::Newline,
                    Shown::Info("Visit https://go.dev/dl/ for a full list of versions"@),
                    Shown::Hint("Use 'gvm install <version>' to install"@),
                ]);
            }
        },
        Err(e) => {
            let msg = e.message();
            lines.push(UiLine::Error(concat2("Failed to fetch available versions: ", msg.as_str())));
        },
    }
    proof {
        let cur = match current {
            Some(c) => Some(c@),
            None => None::<Seq<char>>,
        };
        assert(shown_all(lines@) =~= available_listing_lines(*outcome, cur));
    }
    lines
}

/// What listing shows: the versions available for download when `all`,
/// else the installed ones; `current` is the active version.
pub fn list(all: bool, outcome: Result<VersionList, GvmError>, current: &Option<String>) -> (res: (Vec<UiLine>, Result<(), GvmError>))
    ensures
        res.1 == outcome_result(outcome),
        all ==> shown_all(res.0@) == available_listing_lines(outcome, match current {
            Some(c) => Some(c@),
            None => None,
        }),
        !all ==> shown_all(res.0@) == installed_listing_lines(outcome, match current {
            Some(c) => Some(c@),
            None => None,
        }),
{
    let lines = if all {
        list_available_versions(&outcome, current)
    } else {
        list_installed_versions(&outcome, current)
    };
    (lines, unit_result(outcome))
}

/// What the information on a version shows.
pub fn info(version: &str, outcome: Result<GoVersionInfo, GvmError>) -> (res: (Vec<UiLine>, Result<(), GvmError>))
    ensures
        res.1 == outcome_result(outcome),
        shown_all(res.0@) == info_lines(version@, outcome),
{
    let mut lines: Vec<UiLine> = Vec::new();
    match &outcome {
        Ok(i) => {
            let head = concat3("Go ", i.version.as_str(), " (");
            let mid = concat3(head.as_str(), i.os.as_str(), "-");
            lines.push(UiLine::Info(concat3(mid.as_str(), i.arch.as_str(), ")")));
            if i.is_installed {
                lines.push(UiLine::Success(String::from_str("Installed")));
                lines.push(UiLine::Hint(concat2("To use: gvm use ", version)));
            } else {
                lines.push(UiLine::Warning(String::from_str("Not installed")));
                lines.push(UiLine::Hint(concat2("To install: gvm install ", version)));
            }
        },
        Err(e) => {
            let msg = e.message();
            let head = concat3("Failed to get info for Go ", version, ": ");
            lines.push(UiLine::Error(concat2(head.as_str(), msg.as_str())));
            lines.push(UiLine::Hint(String::from_str("Please ensure the version exists and is accessible")));
        },
    }
    proof {
        assert(shown_all(lines@) =~= info_lines(version@, outcome));
    }
    (lines, unit_result(outcome))
}

/// The lines that quiet mode shows: the errors alone.
pub open spec fn errors_only(v: Seq<Shown>) -> Seq<Shown>
    decreases v.len(),
{
    if v.len() == 0 {
        Seq::empty()
    } else if v.last() is Error {
        errors_only(v.drop_last()).push(v.last())
    } else {
        errors_only(v.drop_last())
    }
}

/// The lines to show: all of them, or in quiet mode only the errors.
pub fn for_output(lines: Vec<UiLine>, quiet: bool) -> (res: Vec<UiLine>)
    ensures
        shown_all(res@) == if quiet { errors_only(shown_all(lines@)) } else { shown_all(lines@) },
{
    if !quiet {
        return lines;
    }
    let mut out: Vec<UiLine> = Vec::new();
    let mut i: usize = 0;
    while i < lines.len()
        invariant
            i <= lines@.len(),
            shown_all(out@) == errors_only(shown_all(lines@.subrange(0, i as int))),
        decreases lines@.len() - i,
    {
        let ghost prefix = lines@.subrange(0, i + 1);
        proof {
            assert(shown_all(prefix).drop_last() =~= shown_all(lines@.subrange(0, i as int)));
            assert(shown_all(prefix).last() == shown(lines@[i as int]));
        }
        if let UiLine::Error(s) = &lines[i] {
            let ghost before = out@;
            out.push(UiLine::Error(s.clone()));
            proof {
                assert(shown_all(out@) =~= shown_all(before).push(shown(lines@[i as int])));
            }
        }
        i = i + 1;
    }
    proof {
        assert(lines@.subrange(0, i as int) =~= lines@);
    }
    out
}

/// The first variable named `key` is the one at `i`.
proof fn lemma_env_value_at(vars: Seq<(String, String)>, key: Seq<char>, i: int)
    requires
        0 <= i < vars.len(),
        vars[i].0@ == key,
        forall|j: int| 0 <= j < i ==> vars[j].0@ != key,
    ensures
        env_value(vars, key) == Some(vars[i].1@),
    decreases i,
{
    if i > 0 {
        let rest = vars.drop_first();
        assert forall|j: int| 0 <= j < i - 1 implies rest[j].0@ != key by {
            assert(rest[j] == vars[j + 1]);
        }
        lemma_env_value_at(rest, key, i - 1);
    }
}

/// Law: the status of an active version shows, as its installation path,
/// the value of `GOROOT` in its environment (the first variable of that
/// name), right after the active version.
pub proof fn lemma_status_shows_goroot(st: RuntimeStatus, i: int)
    requires
        st.current_version is Some,
        0 <= i < st.environment_vars@.len(),
        st.environment_vars@[i].0@ == "GOROOT"@,
        forall|j: int| 0 <= j < i ==> st.environment_vars@[j].0@ != "GOROOT"@,
    ensures
        status_lines(Ok(st))[1] == Shown::KeyValue("Installation path"@, st.environment_vars@[i].1@),
        status_lines(Ok(st)).contains(Shown::KeyValue("Installation path"@, st.environment_vars@[i].1@)),
{
    lemma_env_value_at(st.environment_vars@, "GOROOT"@, i);
    let lines = status_lines(Ok(st));
    assert(lines[1] == Shown::KeyValue("Installation path"@, st.environment_vars@[i].1@));
}

/// Law: the listing of installed versions shows each version, in order, as
/// an item that is marked exactly when it is the active version.
pub proof fn lemma_installed_listing_marks_active(list: VersionList, current: Option<Seq<char>>, i: int)
    requires
        0 <= i < list.versions@.len(),
    ensures
        installed_listing_lines(Ok(list), current)[i]
            == Shown::ListItem(list.versions@[i].version@, current == Some(list.versions@[i].version@)),
        installed_listing_lines(Ok(list), current)[i] matches Shown::ListItem(_, marked)
            && (marked <==> current == Some(list.versions@[i].version@)),
{
    let items = version_items(list.versions@, current);
    assert(items[i] == Shown::ListItem(list.versions@[i].version@, current == Some(list.versions@[i].version@)));
    if list.versions@.len() > 1 {
        let lines = items + seq![Shown::Info("Total: "@ + decimal(list.versions@.len()) + " versions"@)];
        assert(lines[i] == items[i]);
    }
}

/// Law: the information on a version says "Installed" exactly when the
/// version is installed, and "Not installed" exactly when it is not.
pub proof fn lemma_info_reports_installation(version: Seq<char>, info: GoVersionInfo)
    ensures
        info_lines(version, Ok(info)).contains(Shown::Success("Installed"@)) <==> info.is_installed,
        info_lines(version, Ok(info)).contains(Shown::Warning("Not installed"@)) <==> !info.is_installed,
{
    let lines = info_lines(version, Ok(info));
    assert(lines.len() == 3);
    if info.is_installed {
        assert(lines[1] == Shown::Success("Installed"@));
        assert(!lines.contains(Shown::Warning("Not installed"@))) by {
            if lines.contains(Shown::Warning("Not installed"@)) {
                let k = choose|k: int| 0 <= k < lines.len() && lines[k] == Shown::Warning("Not installed"@);
                assert(k == 0 || k == 1 || k == 2);
            }
        }
    } else {
        assert(lines[1] == Shown::Warning("Not installed"@));
        assert(!lines.contains(Shown::Success("Installed"@))) by {
            if lines.contains(Shown::Success("Installed"@)) {
                let k = choose|k: int| 0 <= k < lines.len() && lines[k] == Shown::Success("Installed"@);
                assert(k == 0 || k == 1 || k == 2);
            }
        }
    }
}

} // verus!
