//! The richer terminal layout: banners, headers, key-value pairs, lists of
//! versions and the details of a version, as lines that the program styles.
use vstd::prelude::*;
use crate::go::GoVersionInfo;
use crate::text::{decimal, digit_char, push_decimal, push_digit, str_equal};
use crate::ui::display::{icon, Icons};
use crate::units::{f64_value, pow1024_value, size_tenths};
use crate::{VersionInfo, VersionList};

verus! {

/// The colors a value can be shown in.
#[derive(Debug, Clone, Copy, PartialEq, Eq, Structural)]
pub enum UiColor {
    Green,
    Red,
    Yellow,
    Blue,
    Cyan,
    Dimmed,
    Bold,
    Plain,
}

/// A line of the layout.
#[derive(Debug, Clone)]
pub enum DisplayLine {
    Banner(String),
    Header(String),
    Success(String),
    Error(String),
    Warning(String),
    Info(String),
    Hint(String),
    Suggest(String),
    KeyValue(String, String, UiColor),
    /// An icon and a text, highlighted or not.
    Item(String, String, bool),
    /// The active version, with its icon.
    Active(String, String),
    /// A label of its own.
    Label(String),
    /// A state, good or not, with its icon.
    State(bool, String, String),
    Separator,
    Newline,
}

/// A line of the layout, as text.
pub enum Drawn {
    Banner(Seq<char>),
    Header(Seq<char>),
    Success(Seq<char>),
    Error(Seq<char>),
    Warning(Seq<char>),
    Info(Seq<char>),
    Hint(Seq<char>),
    Suggest(Seq<char>),
    KeyValue(Seq<char>, Seq<char>, UiColor),
    Item(Seq<char>, Seq<char>, bool),
    Active(Seq<char>, Seq<char>),
    Label(Seq<char>),
    State(bool, Seq<char>, Seq<char>),
    Separator,
    Newline,
}

/// The text of a line.
pub open spec fn drawn(l: DisplayLine) -> Drawn {
    match l {
        DisplayLine::Banner(s) => Drawn::Banner(s@),
        DisplayLine::Header(s) => Drawn::Header(s@),
        DisplayLine::Success(s) => Drawn::Success(s@),
        DisplayLine::Error(s) => Drawn::Error(s@),
        DisplayLine::Warning(s) => Drawn::Warning(s@),
        DisplayLine::Info(s) => Drawn::Info(s@),
        DisplayLine::Hint(s) => Drawn::Hint(s@),
        DisplayLine::Suggest(s) => Drawn::Suggest(s@),
        DisplayLine::KeyValue(k, v, c) => Drawn::KeyValue(k@, v@, c),
        DisplayLine::Item(i, t, h) => Drawn::Item(i@, t@, h),
        DisplayLine::Active(i, t) => Drawn::Active(i@, t@),
        DisplayLine::Label(s) => Drawn::Label(s@),
        DisplayLine::State(ok, i, t) => Drawn::State(ok, i@, t@),
        DisplayLine::Separator => Drawn::Separator,
        DisplayLine::Newline => Drawn::Newline,
    }
}

/// The text of lines.
pub open spec fn drawn_all(v: Seq<DisplayLine>) -> Seq<Drawn> {
    v.map_values(|l: DisplayLine| drawn(l))
}

/// The color that a name asks for.
pub open spec fn color_of(name: Seq<char>) -> UiColor {
    if name == "green"@ {
        UiColor::Green
    } else if name == "red"@ {
        UiColor::Red
    } else if name == "yellow"@ {
        UiColor::Yellow
    } else if name == "blue"@ {
        UiColor::Blue
    } else if name == "cyan"@ {
        UiColor::Cyan
    } else if name == "dimmed"@ {
        UiColor::Dimmed
    } else if name == "bold"@ {
        UiColor::Bold
    } else {
        UiColor::Plain
    }
}

/// The package icon in the style chosen.
pub open spec fn package_icon(ascii: bool) -> Seq<char> {
    icon(ascii, "📦"@, "📦"@)
}

/// The items of a listing, none highlighted, each with the package icon.
pub open spec fn plain_items(versions: Seq<GoVersionInfo>, ascii: bool) -> Seq<Drawn> {
    versions.map_values(|v: GoVersionInfo| Drawn::Item(package_icon(ascii), v.version@, false))
}

/// The items of a listing with the active version shown as such.
pub open spec fn items_with_current(versions: Seq<GoVersionInfo>, ascii: bool, current: Option<Seq<char>>) -> Seq<Drawn> {
    versions.map_values(|v: GoVersionInfo| if current == Some(v.version@) {
        Drawn::Active(icon(ascii, "★"@, "⭐"@), v.version@)
    } else {
        Drawn::Item(package_icon(ascii), v.version@, false)
    })
}

/// The layout of a listing under a title.
pub open spec fn version_list_lines(list: VersionList, title: Seq<char>, ascii: bool) -> Seq<Drawn> {
    seq![Drawn::Header(title)] + if list.versions@.len() == 0 {
        seq![Drawn::Warning("No versions found"@)]
    } else {
        plain_items(list.versions@, ascii) + seq![
            Drawn::Newline,
            Drawn::Info("Total: "@ + decimal(list.total_count as nat) + " versions"@),
        ]
    }
}

/// The layout of a listing with the active version.
pub open spec fn version_list_with_current_lines(list: VersionList, title: Seq<char>, ascii: bool, current: Option<Seq<char>>) -> Seq<Drawn> {
    seq![Drawn::Header(title)] + if list.versions@.len() == 0 {
        seq![Drawn::Warning("No versions found"@), Drawn::Suggest("Install a version with: gvm install <version>"@)]
    } else {
        items_with_current(list.versions@, ascii, current) + seq![
            Drawn::Separator,
            Drawn::KeyValue("Total versions"@, decimal(list.total_count as nat), UiColor::Cyan),
        ] + match current {
            Some(c) => seq![Drawn::KeyValue("Active version"@, c, UiColor::Green)],
            None => seq![
                Drawn::Warning("No version currently active"@),
                Drawn::Suggest("Activate a version with: gvm use <version>"@),
            ],
        }
    }
}

/// The layout of the details of a version.
pub open spec fn version_info_lines(info: GoVersionInfo, ascii: bool) -> Seq<Drawn> {
    seq![
        Drawn::Header(package_icon(ascii) + " Go "@ + info.version@ + " Details"@),
        Drawn::KeyValue("Version"@, info.version@, UiColor::Plain),
        Drawn::KeyValue("Platform"@, info.os@ + "-"@ + info.arch@, UiColor::Plain),
        Drawn::KeyValue("Archive"@, info.filename@, UiColor::Plain),
    ] + match info.size {
        Some(b) => seq![Drawn::KeyValue("Size"@, megabytes_with_space(b as nat), UiColor::Plain)],
        None => Seq::empty(),
    } + seq![Drawn::Separator, Drawn::Label("Status:"@)] + (if info.is_installed {
        seq![Drawn::State(true, "✓"@, "Installed"@)] + match info.install_path {
            Some(p) => seq![Drawn::State(true, "📁"@, p@)],
            None => Seq::empty(),
        }
    } else {
        seq![Drawn::State(false, "✗"@, "Not installed"@)]
    }) + seq![if info.is_cached {
        Drawn::State(true, "✓"@, "Cached"@)
    } else {
        Drawn::State(false, "✗"@, "Not cached"@)
    }, Drawn::Separator] + match info.sha256 {
        Some(h) => seq![Drawn::KeyValue("SHA256"@, h@, UiColor::Dimmed)],
        None => seq![Drawn::Warning("SHA256 verification not available for this version"@)],
    } + seq![Drawn::Newline] + if info.is_installed {
        seq![
            Drawn::Suggest("Use this version: gvm use "@ + info.version@),
            Drawn::Hint("Remove this version: gvm uninstall "@ + info.version@),
        ]
    } else {
        seq![Drawn::Suggest("Install this version: gvm install "@ + info.version@)]
    }
}

/// A size in megabytes with one decimal and a space before the unit.
pub open spec fn megabytes_with_space(b: nat) -> Seq<char> {
    let t = size_tenths(b, 2);
    decimal(t / 10) + seq!['.', digit_char(t % 10)] + " MB"@
}

/// The richer layout, with the icons in the style chosen.
pub struct UI {
    pub ascii: bool,
}

impl UiColor {
    /// The color that a name asks for; unknown names give plain text.
    pub fn from_name(name: &str) -> (res: UiColor)
        ensures
            res == color_of(name@),
    {
        if str_equal(name, "green") {
            UiColor::Green
        } else if str_equal(name, "red") {
            UiColor::Red
        } else if str_equal(name, "yellow") {
            UiColor::Yellow
        } else if str_equal(name, "blue") {
            UiColor::Blue
        } else if str_equal(name, "cyan") {
            UiColor::Cyan
        } else if str_equal(name, "dimmed") {
            UiColor::Dimmed
        } else if str_equal(name, "bold") {
            UiColor::Bold
        } else {
            UiColor::Plain
        }
    }
}

/// `a` followed by `b`.
fn cat(a: &str, b: &str) -> (res: String)
    ensures
        res@ == a@ + b@,
{
    let mut s = String::from_str(a);
    s.append(b);
    s
}

/// "Total: <n> versions".
fn total_versions(n: usize) -> (res: String)
    ensures
        res@ == "Total: "@ + decimal(n as nat) + " versions"@,
{
    let mut s = String::from_str("Total: ");
    push_decimal(&mut s, n as u128);
    s.append(" versions");
    s
}

impl UI {
    pub fn new(ascii: bool) -> (res: Self)
        ensures
            res.ascii == ascii,
    {
        UI { ascii }
    }

    /// A listing under a title: the versions, then their number.
    pub fn display_version_list(&self, list: &VersionList, title: &str) -> (res: Vec<DisplayLine>)
        ensures
            drawn_all(res@) == version_list_lines(*list, title@, self.ascii),
    {
        let mut lines: Vec<DisplayLine> = Vec::new();
        lines.push(DisplayLine::Header(String::from_str(title)));
        if list.versions.len() == 0 {
            lines.push(DisplayLine::Warning(String::from_str("No versions found")));
            proof {
                assert(drawn_all(lines@) =~= version_list_lines(*list, title@, self.ascii));
            }
            return lines;
        }
        let mut i: usize = 0;
        while i < list.versions.len()
            invariant
                i <= list.versions@.len(),
                drawn_all(lines@) == seq![Drawn::Header(title@)] + plain_items(list.versions@.subrange(0, i as int), self.ascii),
            decreases list.versions@.len() - i,
        {
            let ghost prev = drawn_all(lines@);
            lines.push(DisplayLine::Item(String::from_str(Icons::package(self.ascii)), list.versions[i].version.clone(), false));
            proof {
                assert(drawn_all(lines@) =~= prev.push(Drawn::Item(package_icon(self.ascii), list.versions@[i as int].version@, false)));
                assert(plain_items(list.versions@.subrange(0, i + 1), self.ascii) =~= plain_items(list.versions@.subrange(0, i as int), self.ascii).push(
                    Drawn::Item(package_icon(self.ascii), list.versions@[i as int].version@, false),
                ));
            }
            i = i + 1;
        }
        let ghost body = drawn_all(lines@);
        lines.push(DisplayLine::Newline);
        lines.push(DisplayLine::Info(total_versions(list.total_count)));
        proof {
            assert(list.versions@.subrange(0, i as int) =~= list.versions@);
            assert(drawn_all(lines@) =~= body + seq![
                Drawn::Newline,
                Drawn::Info("Total: "@ + decimal(list.total_count as nat) + " versions"@),
            ]);
            assert(drawn_all(lines@) =~= version_list_lines(*list, title@, self.ascii));
        }
        lines
    }

    /// A listing under a title with the active version shown as such, then
    /// the number of versions and the active one.
    pub fn display_version_list_with_current(&self, list: &VersionList, title: &str, current_version: Option<&str>) -> (res: Vec<DisplayLine>)
        ensures
            drawn_all(res@) == version_list_with_current_lines(*list, title@, self.ascii, crate::config::opt_view(current_version)),
    {
        let ghost cur = crate::config::opt_view(current_version);
        let mut lines: Vec<DisplayLine> = Vec::new();
        lines.push(DisplayLine::Header(String::from_str(title)));
        if list.versions.len() == 0 {
            lines.push(DisplayLine::Warning(String::from_str("No versions found")));
            lines.push(DisplayLine::Suggest(String::from_str("Install a version with: gvm install <version>")));
            proof {
                assert(drawn_all(lines@) =~= version_list_with_current_lines(*list, title@, self.ascii, cur));
            }
            return lines;
        }
        let mut i: usize = 0;
        while i < list.versions.len()
            invariant
                i <= list.versions@.len(),
                cur == crate::config::opt_view(current_version),
                drawn_all(lines@) == seq![Drawn::Header(title@)] + items_with_current(list.versions@.subrange(0, i as int), self.ascii, cur),
            decreases list.versions@.len() - i,
        {
            let v = &list.versions[i];
            let is_current = match current_version {
                Some(c) => str_equal(v.version.as_str(), c),
                None => false,
            };
            let ghost prev = drawn_all(lines@);
            let ghost item = if cur == Some(v.version@) {
                Drawn::Active(icon(self.ascii, "★"@, "⭐"@), v.version@)
            } else {
                Drawn::Item(package_icon(self.ascii), v.version@, false)
            };
            if is_current {
                lines.push(DisplayLine::Active(String::from_str(Icons::current(self.ascii)), v.version.clone()));
            } else {
                lines.push(DisplayLine::Item(String::from_str(Icons::package(self.ascii)), v.version.clone(), false));
            }
            proof {
                assert(drawn_all(lines@) =~= prev.push(item));
                assert(items_with_current(list.versions@.subrange(0, i + 1), self.ascii, cur) =~= items_with_current(
                    list.versions@.subrange(0, i as int), self.ascii, cur).push(item));
            }
            i = i + 1;
        }
        let ghost body = drawn_all(lines@);
        lines.push(DisplayLine::Separator);
        let mut count = String::new();
        push_decimal(&mut count, list.total_count as u128);
        lines.push(DisplayLine::KeyValue(String::from_str("Total versions"), count, UiColor::Cyan));
        match current_version {
            Some(c) => {
                lines.push(DisplayLine::KeyValue(String::from_str("Active version"), String::from_str(c), UiColor::Green));
            },
            None => {
                lines.push(DisplayLine::Warning(String::from_str("No version currently active")));
                lines.push(DisplayLine::Suggest(String::from_str("Activate a version with: gvm use <version>")));
            },
        }
        proof {
            assert(list.versions@.subrange(0, i as int) =~= list.versions@);
            let tail = seq![
                Drawn::Separator,
                Drawn::KeyValue("Total versions"@, decimal(list.total_count as nat), UiColor::Cyan),
            ] + match cur {
                Some(c) => seq![Drawn::KeyValue("Active version"@, c, UiColor::Green)],
                None => seq![
                    Drawn::Warning("No version currently active"@),
                    Drawn::Suggest("Activate a version with: gvm use <version>"@),
                ],
            };
            assert(drawn_all(lines@) =~= body + tail);
            assert(drawn_all(lines@) =~= version_list_with_current_lines(*list, title@, self.ascii, cur));
        }
        lines
    }

    /// The result of an installation.
    pub fn display_install_result(&self, version_info: &VersionInfo) -> (res: Vec<DisplayLine>)
        ensures
            drawn_all(res@) == seq![
                Drawn::Success("Go "@ + version_info.version@ + " installed successfully!"@),
                Drawn::KeyValue("Installation path"@, version_info.path@, UiColor::Dimmed),
                Drawn::Separator,
                Drawn::Suggest("Activate this version: gvm use "@ + version_info.version@),
            ],
    {
        let mut lines: Vec<DisplayLine> = Vec::new();
        let head = cat("Go ", version_info.version.as_str());
        lines.push(DisplayLine::Success(cat(head.as_str(), " installed successfully!")));
        lines.push(DisplayLine::KeyValue(String::from_str("Installation path"), version_info.path.clone(), UiColor::Dimmed));
        lines.push(DisplayLine::Separator);
        lines.push(DisplayLine::Suggest(cat("Activate this version: gvm use ", version_info.version.as_str())));
        proof {
            assert(drawn_all(lines@) =~= seq![
                Drawn::Success("Go "@ + version_info.version@ + " installed successfully!"@),
                Drawn::KeyValue("Installation path"@, version_info.path@, UiColor::Dimmed),
                Drawn::Separator,
                Drawn::Suggest("Activate this version: gvm use "@ + version_info.version@),
            ]);
        }
        lines
    }

    /// The start of an installation.
    pub fn display_install_start(&self, version: &str) -> (res: Vec<DisplayLine>)
        ensures
            drawn_all(res@) == seq![
                Drawn::Banner("Installing Go "@ + version@),
                Drawn::Info("This may take a few minutes depending on your internet connection..."@),
                Drawn::Newline,
            ],
    {
        let mut lines: Vec<DisplayLine> = Vec::new();
        lines.push(DisplayLine::Banner(cat("Installing Go ", version)));
        lines.push(DisplayLine::Info(String::from_str("This may take a few minutes depending on your internet connection...")));
        lines.push(DisplayLine::Newline);
        proof {
            assert(drawn_all(lines@) =~= seq![
                Drawn::Banner("Installing Go "@ + version@),
                Drawn::Info("This may take a few minutes depending on your internet connection..."@),
                Drawn::Newline,
            ]);
        }
        lines
    }

    /// The start of an uninstallation.
    pub fn display_uninstall_start(&self, version: &str) -> (res: Vec<DisplayLine>)
        ensures
            drawn_all(res@) == seq![Drawn::Header(icon(self.ascii, "🗑"@, "🗑️"@) + " Uninstalling Go "@ + version@)],
    {
        let mut lines: Vec<DisplayLine> = Vec::new();
        let head = cat(Icons::trash(self.ascii), " Uninstalling Go ");
        lines.push(DisplayLine::Header(cat(head.as_str(), version)));
        proof {
            assert(drawn_all(lines@) =~= seq![Drawn::Header(icon(self.ascii, "🗑"@, "🗑️"@) + " Uninstalling Go "@ + version@)]);
        }
        lines
    }

    /// The end of an uninstallation.
    pub fn display_uninstall_success(&self, version: &str) -> (res: Vec<DisplayLine>)
        ensures
            drawn_all(res@) == seq![
                Drawn::Success("Go "@ + version@ + " has been uninstalled"@),
                Drawn::Suggest("Install another version with: gvm install <version>"@),
            ],
    {
        let mut lines: Vec<DisplayLine> = Vec::new();
        let head = cat("Go ", version);
        lines.push(DisplayLine::Success(cat(head.as_str(), " has been uninstalled")));
        lines.push(DisplayLine::Suggest(String::from_str("Install another version with: gvm install <version>")));
        proof {
            assert(drawn_all(lines@) =~= seq![
                Drawn::Success("Go "@ + version@ + " has been uninstalled"@),
                Drawn::Suggest("Install another version with: gvm install <version>"@),
            ]);
        }
        lines
    }

    /// The end of a switch.
    pub fn display_switch_success(&self, version: &str) -> (res: Vec<DisplayLine>)
        ensures
            drawn_all(res@) == seq![
                Drawn::Success("Switched to Go "@ + version@),
                Drawn::Info("Environment updated - restart your terminal or run 'source ~/.bashrc'"@),
                Drawn::Suggest("Verify installation: go version"@),
            ],
    {
        let mut lines: Vec<DisplayLine> = Vec::new();
        lines.push(DisplayLine::Success(cat("Switched to Go ", version)));
        lines.push(DisplayLine::Info(String::from_str("Environment updated - restart your terminal or run 'source ~/.bashrc'")));
        lines.push(DisplayLine::Suggest(String::from_str("Verify installation: go version")));
        proof {
            assert(drawn_all(lines@) =~= seq![
                Drawn::Success("Switched to Go "@ + version@),
                Drawn::Info("Environment updated - restart your terminal or run 'source ~/.bashrc'"@),
                Drawn::Suggest("Verify installation: go version"@),
            ]);
        }
        lines
    }

    /// An error with what to do about it.
    pub fn display_error_with_suggestion(&self, error: &str, suggestion: &str) -> (res: Vec<DisplayLine>)
        ensures
            drawn_all(res@) == seq![Drawn::Error(error@), Drawn::Suggest(suggestion@)],
    {
        let mut lines: Vec<DisplayLine> = Vec::new();
        lines.push(DisplayLine::Error(String::from_str(error)));
        lines.push(DisplayLine::Suggest(String::from_str(suggestion)));
        proof {
            assert(drawn_all(lines@) =~= seq![Drawn::Error(error@), Drawn::Suggest(suggestion@)]);
        }
        lines
    }

    /// The details of a version: its names and size, whether it is
    /// installed and cached, its checksum, and what to do next.
    pub fn display_version_info(&self, info: &GoVersionInfo) -> (res: Vec<DisplayLine>)
        ensures
            drawn_all(res@) == version_info_lines(*info, self.ascii),
    {
        let mut lines: Vec<DisplayLine> = Vec::new();
        let head = cat(Icons::package(self.ascii), " Go ");
        let head = cat(head.as_str(), info.version.as_str());
        lines.push(DisplayLine::Header(cat(head.as_str(), " Details")));
        lines.push(DisplayLine::KeyValue(String::from_str("Version"), info.version.clone(), UiColor::Plain));
        let platform = cat(info.os.as_str(), "-");
        lines.push(DisplayLine::KeyValue(String::from_str("Platform"), cat(platform.as_str(), info.arch.as_str()), UiColor::Plain));
        lines.push(DisplayLine::KeyValue(String::from_str("Archive"), info.filename.clone(), UiColor::Plain));
        let ghost first = drawn_all(lines@);
        if let Some(b) = info.size {
            lines.push(DisplayLine::KeyValue(String::from_str("Size"), megabytes(b), UiColor::Plain));
        }
        let ghost sized = drawn_all(lines@);
        lines.push(DisplayLine::Separator);
        lines.push(DisplayLine::Label(String::from_str("Status:")));
        let ghost labelled = drawn_all(lines@);
        if info.is_installed {
            lines.push(DisplayLine::State(true, String::from_str("✓"), String::from_str("Installed")));
            if let Some(p) = &info.install_path {
                lines.push(DisplayLine::State(true, String::from_str("📁"), p.clone()));
            }
        } else {
            lines.push(DisplayLine::State(false, String::from_str("✗"), String::from_str("Not installed")));
        }
        let ghost installed = drawn_all(lines@);
        if info.is_cached {
            lines.push(DisplayLine::State(true, String::from_str("✓"), String::from_str("Cached")));
        } else {
            lines.push(DisplayLine::State(false, String::from_str("✗"), String::from_str("Not cached")));
        }
        lines.push(DisplayLine::Separator);
        let ghost cached = drawn_all(lines@);
        match &info.sha256 {
            Some(h) => lines.push(DisplayLine::KeyValue(String::from_str("SHA256"), h.clone(), UiColor::Dimmed)),
            None => lines.push(DisplayLine::Warning(String::from_str("SHA256 verification not available for this version"))),
        }
        lines.push(DisplayLine::Newline);
        let ghost checked = drawn_all(lines@);
        if info.is_installed {
            lines.push(DisplayLine::Suggest(cat("Use this version: gvm use ", info.version.as_str())));
            lines.push(DisplayLine::Hint(cat("Remove this version: gvm uninstall ", info.version.as_str())));
        } else {
            lines.push(DisplayLine::Suggest(cat("Install this version: gvm install ", info.version.as_str())));
        }
        proof {
            assert(first =~= seq![
                Drawn::Header(package_icon(self.ascii) + " Go "@ + info.version@ + " Details"@),
                Drawn::KeyValue("Version"@, info.version@, UiColor::Plain),
                Drawn::KeyValue("Platform"@, info.os@ + "-"@ + info.arch@, UiColor::Plain),
                Drawn::KeyValue("Archive"@, info.filename@, UiColor::Plain),
            ]);
            assert(sized =~= first + match info.size {
                Some(b) => seq![Drawn::KeyValue("Size"@, megabytes_with_space(b as nat), UiColor::Plain)],
                None => Seq::<Drawn>::empty(),
            });
            assert(labelled =~= sized + seq![Drawn::Separator, Drawn::Label("Status:"@)]);
            assert(installed =~= labelled + (if info.is_installed {
                seq![Drawn::State(true, "✓"@, "Installed"@)] + match info.install_path {
                    Some(p) => seq![Drawn::State(true, "📁"@, p@)],
                    None => Seq::<Drawn>::empty(),
                }
            } else {
                seq![Drawn::State(false, "✗"@, "Not installed"@)]
            }));
            assert(cached =~= installed + seq![if info.is_cached {
                Drawn::State(true, "✓"@, "Cached"@)
            } else {
                Drawn::State(false, "✗"@, "Not cached"@)
            }, Drawn::Separator]);
            assert(checked =~= cached + match info.sha256 {
                Some(h) => seq![Drawn::KeyValue("SHA256"@, h@, UiColor::Dimmed)],
                None => seq![Drawn::Warning("SHA256 verification not available for this version"@)],
            } + seq![Drawn::Newline]);
            assert(drawn_all(lines@) =~= version_info_lines(*info, self.ascii));
        }
        lines
    }

    /// The progress of a download as the percentage done and the filled and
    /// empty cells of a bar of 40.
    pub fn display_download_progress(&self, current: u64, total: u64) -> (res: (u64, usize, usize))
        requires
            current * 100 <= u64::MAX,
            total == 0 || (current * 100) / (total as int) <= 102,
        ensures
            res.0 == (if total > 0 { (current * 100) / (total as int) } else { 0 }),
            res.1 == res.0 * 40 / 100,
            res.1 + res.2 == 40,
    {
        let percentage: u64 = if total > 0 { (current * 100) / total } else { 0 };
        let filled = (percentage * 40 / 100) as usize;
        let remaining = (40 - percentage * 40 / 100) as usize;
        (percentage, filled, remaining)
    }

    /// The end of a download's progress.
    pub fn complete_download_progress(&self) -> (res: Vec<DisplayLine>)
        ensures
            drawn_all(res@) == seq![Drawn::Newline, Drawn::Success("Download completed"@)],
    {
        let mut lines: Vec<DisplayLine> = Vec::new();
        lines.push(DisplayLine::Newline);
        lines.push(DisplayLine::Success(String::from_str("Download completed")));
        proof {
            assert(drawn_all(lines@) =~= seq![Drawn::Newline, Drawn::Success("Download completed"@)]);
        }
        lines
    }
}

/// A size in megabytes with one decimal and a space before the unit, as
/// `{:.1} MB` renders the binary64 quotient of the size by 1024 twice.
fn megabytes(b: u64) -> (res: String)
    ensures
        res@ == megabytes_with_space(b as nat),
{
    let r = f64_value(b);
    let den = pow1024_value(2);
    let num = r * 10;
    let q = num / den;
    let rem = num % den;
    let t = if 2 * rem > den || (2 * rem == den && q % 2 == 1) {
        q + 1
    } else {
        q
    };
    let mut s = String::new();
    push_decimal(&mut s, t / 10);
    s.append(".");
    push_digit(&mut s, t % 10);
    s.append(" MB");
    proof {
        reveal_strlit(".");
        assert(t == size_tenths(b as nat, 2));
        assert(s@ =~= megabytes_with_space(b as nat));
    }
    s
}

} // verus!
