//! Icon sets for terminals of different abilities, the names of the theme's
//! colour and progress-style slots, and what the terminal can show.
use vstd::prelude::*;
use crate::text::{contains_sub, contains_text};

verus! {

/// Icon set for different terminal capabilities
#[derive(Debug, Clone)]
pub struct IconSet {
    pub success: &'static str,
    pub error: &'static str,
    pub warning: &'static str,
    pub info: &'static str,
    pub package: &'static str,
    pub download: &'static str,
    pub install: &'static str,
    pub current: &'static str,
    pub arrow_right: &'static str,
    pub spinner: Vec<&'static str>,
}

/// The icons of a set, in field order.
pub open spec fn icon_texts(s: IconSet) -> Seq<Seq<char>> {
    seq![s.success@, s.error@, s.warning@, s.info@, s.package@, s.download@, s.install@, s.current@, s.arrow_right@]
}

/// The frames of a set's spinner.
pub open spec fn spinner_texts(s: IconSet) -> Seq<Seq<char>> {
    s.spinner@.map_values(|f: &'static str| f@)
}

impl IconSet {
    /// Unicode icons for modern terminals
    pub fn unicode() -> (res: Self)
        ensures
            icon_texts(res) == seq!["✅"@, "❌"@, "⚠️"@, "ℹ️"@, "📦"@, "⬇️"@, "⚙️"@, "⭐"@, "➡️"@],
            spinner_texts(res) == seq!["⠋"@, "⠙"@, "⠹"@, "⠸"@, "⠼"@, "⠴"@, "⠦"@, "⠧"@, "⠇"@, "⠏"@],
    {
        let mut spinner = Vec::new();
        spinner.push("⠋");
        spinner.push("⠙");
        spinner.push("⠹");
        spinner.push("⠸");
        spinner.push("⠼");
        spinner.push("⠴");
        spinner.push("⠦");
        spinner.push("⠧");
        spinner.push("⠇");
        spinner.push("⠏");
        let res = IconSet {
            success: "✅",
            error: "❌",
            warning: "⚠️",
            info: "ℹ️",
            package: "📦",
            download: "⬇️",
            install: "⚙️",
            current: "⭐",
            arrow_right: "➡️",
            spinner,
        };
        assert(spinner_texts(res) =~= seq!["⠋"@, "⠙"@, "⠹"@, "⠸"@, "⠼"@, "⠴"@, "⠦"@, "⠧"@, "⠇"@, "⠏"@]);
        res
    }

    /// ASCII icons for limited terminals
    pub fn ascii() -> (res: Self)
        ensures
            icon_texts(res) == seq!["[✓]"@, "[✗]"@, "[!]"@, "[i]"@, "[*]"@, "[↓]"@, "[+]"@, "[>]"@, "->"@],
            spinner_texts(res) == seq!["|"@, "/"@, "-"@, "\\"@],
    {
        let mut spinner = Vec::new();
        spinner.push("|");
        spinner.push("/");
        spinner.push("-");
        spinner.push("\\");
        let res = IconSet {
            success: "[✓]",
            error: "[✗]",
            warning: "[!]",
            info: "[i]",
            package: "[*]",
            download: "[↓]",
            install: "[+]",
            current: "[>]",
            arrow_right: "->",
            spinner,
        };
        assert(spinner_texts(res) =~= seq!["|"@, "/"@, "-"@, "\\"@]);
        res
    }

    /// Minimal icons using only basic characters
    pub fn minimal() -> (res: Self)
        ensures
            icon_texts(res) == seq!["[OK]"@, "[ERR]"@, "[WARN]"@, "[INFO]"@, "[PKG]"@, "[DL]"@, "[INST]"@, "[CUR]"@, "=>"@],
            spinner_texts(res) == seq!["."@, ".."@, "..."@, "...."@],
    {
        let mut spinner = Vec::new();
        spinner.push(".");
        spinner.push("..");
        spinner.push("...");
        spinner.push("....");
        let res = IconSet {
            success: "[OK]",
            error: "[ERR]",
            warning: "[WARN]",
            info: "[INFO]",
            package: "[PKG]",
            download: "[DL]",
            install: "[INST]",
            current: "[CUR]",
            arrow_right: "=>",
            spinner,
        };
        assert(spinner_texts(res) =~= seq!["."@, ".."@, "..."@, "...."@]);
        res
    }
}

/// Progress bar style templates
pub struct ProgressStyles;

/// Color type enumeration for theme application
#[derive(Debug, Clone, Copy)]
pub enum ColorType {
    Primary,
    Secondary,
    Success,
    Warning,
    Error,
    Info,
    Muted,
    Accent,
}

/// Progress style type enumeration
#[derive(Debug, Clone, Copy)]
pub enum ProgressStyleType {
    Download,
    Install,
    Spinner,
    MultiStep,
    Minimal,
}


/// The themes a terminal can get.
#[derive(Debug, Clone, Copy, PartialEq, Eq, Structural)]
pub enum ThemeKind {
    Default,
    Dark,
    Light,
    Minimal,
}

/// What `str::to_lowercase` gives for a text.
pub uninterp spec fn lowercase_of(s: Seq<char>) -> Seq<char>;

/// What `str::to_uppercase` gives for a text.
pub uninterp spec fn uppercase_of(s: Seq<char>) -> Seq<char>;

/// `str::to_lowercase`: the text in lower case, by Unicode's mapping. The
/// contract names the result and claims only that it depends on the text.
#[verifier::external_body]
fn to_lowercase(s: &str) -> (res: String)
    ensures
        res@ == lowercase_of(s@),
{
    s.to_lowercase()
}

/// `str::to_uppercase`: the text in upper case, by Unicode's mapping. The
/// contract names the result and claims only that it depends on the text.
#[verifier::external_body]
fn to_uppercase(s: &str) -> (res: String)
    ensures
        res@ == uppercase_of(s@),
{
    s.to_uppercase()
}

/// Whether `s` ends with `suffix`.
pub open spec fn ends_with(s: Seq<char>, suffix: Seq<char>) -> bool {
    suffix.len() <= s.len() && s.subrange(s.len() - suffix.len(), s.len() as int) == suffix
}

/// Whether the terminal takes colors: not when `NO_COLOR` is set, nor when
/// `TERM` is unset, empty or `dumb`.
pub fn supports_color(no_color_set: bool, term: Option<&str>) -> (res: bool)
    ensures
        res == (!no_color_set && match term {
            Some(t) => t@.len() > 0 && t@ != "dumb"@,
            None => false,
        }),
{
    if no_color_set {
        return false;
    }
    match term {
        Some(t) => t.unicode_len() > 0 && !crate::text::str_equal(t, "dumb"),
        None => false,
    }
}

/// Whether the terminal takes Unicode, given `LANG` and `LC_ALL` already in
/// upper case: `LANG` decides when set, else `LC_ALL`, else Windows and
/// color terminals do.
pub fn unicode_from(lang_upper: Option<&str>, lc_all_upper: Option<&str>, rust_os: &str, colors: bool) -> (res: bool)
    ensures
        res == match lang_upper {
            Some(l) => contains_sub(l@, "UTF"@),
            None => match lc_all_upper {
                Some(l) => contains_sub(l@, "UTF"@),
                None => rust_os@ == "windows"@ || colors,
            },
        },
{
    match lang_upper {
        Some(l) => contains_text(l, "UTF"),
        None => match lc_all_upper {
            Some(l) => contains_text(l, "UTF"),
            None => crate::text::str_equal(rust_os, "windows") || colors,
        },
    }
}

/// Whether the terminal takes Unicode, from `LANG` and `LC_ALL` (`None`
/// when unset): as `unicode_from` decides on their upper-case forms.
pub fn supports_unicode(lang: Option<&str>, lc_all: Option<&str>, rust_os: &str, colors: bool) -> (res: bool)
    ensures
        res == match lang {
            Some(l) => contains_sub(uppercase_of(l@), "UTF"@),
            None => match lc_all {
                Some(l) => contains_sub(uppercase_of(l@), "UTF"@),
                None => rust_os@ == "windows"@ || colors,
            },
        },
{
    match lang {
        Some(l) => {
            let u = to_uppercase(l);
            unicode_from(Some(u.as_str()), None, rust_os, colors)
        },
        None => match lc_all {
            Some(l) => {
                let u = to_uppercase(l);
                unicode_from(None, Some(u.as_str()), rust_os, colors)
            },
            None => unicode_from(None, None, rust_os, colors),
        },
    }
}

/// Whether the terminal has a dark background, given `TERM` and
/// `TERM_PROGRAM` already in lower case and `COLORFGBG`: a `dark` terminal,
/// iTerm, VS Code, or a background color 0.
pub fn dark_terminal_from(term_lower: &str, term_program_lower: &str, colorfgbg: &str) -> (res: bool)
    ensures
        res == (contains_sub(term_lower@, "dark"@) || contains_sub(term_program_lower@, "iterm"@)
            || contains_sub(term_program_lower@, "vscode"@) || ends_with(colorfgbg@, ";0"@)),
{
    let n = colorfgbg.unicode_len();
    let ends = if n >= 2 {
        let tail = crate::text::substring(colorfgbg, n - 2, n);
        crate::text::str_equal(tail.as_str(), ";0")
    } else {
        false
    };
    proof {
        reveal_strlit(";0");
    }
    contains_text(term_lower, "dark") || contains_text(term_program_lower, "iterm")
        || contains_text(term_program_lower, "vscode") || ends
}

/// Whether the terminal has a dark background, from `TERM`, `TERM_PROGRAM`
/// and `COLORFGBG` (empty when unset).
pub fn is_dark_terminal(term: &str, term_program: &str, colorfgbg: &str) -> (res: bool)
    ensures
        res == (contains_sub(lowercase_of(term@), "dark"@) || contains_sub(lowercase_of(term_program@), "iterm"@)
            || contains_sub(lowercase_of(term_program@), "vscode"@) || ends_with(colorfgbg@, ";0"@)),
{
    let t = to_lowercase(term);
    let p = to_lowercase(term_program);
    dark_terminal_from(t.as_str(), p.as_str(), colorfgbg)
}

/// The theme for a terminal: minimal without colors, dark on a dark
/// background, the default otherwise.
pub fn detect_theme(colors: bool, dark: bool) -> (res: ThemeKind)
    ensures
        res == (if !colors { ThemeKind::Minimal } else if dark { ThemeKind::Dark } else { ThemeKind::Default }),
{
    if !colors {
        ThemeKind::Minimal
    } else if dark {
        ThemeKind::Dark
    } else {
        ThemeKind::Default
    }
}

/// The theme chosen automatically: minimal when `NO_COLOR` is set or `TERM`
/// is `dumb`, dark on a dark background, the default otherwise.
pub fn auto_theme(no_color_set: bool, term: &str, dark: bool) -> (res: ThemeKind)
    ensures
        res == (if no_color_set || term@ == "dumb"@ { ThemeKind::Minimal } else if dark { ThemeKind::Dark } else { ThemeKind::Default }),
{
    if no_color_set || crate::text::str_equal(term, "dumb") {
        ThemeKind::Minimal
    } else if dark {
        ThemeKind::Dark
    } else {
        ThemeKind::Default
    }
}


/// A terminal color: one of the eight named ones, or one of the 256 indexed.
#[derive(Debug, Clone, Copy, PartialEq, Eq, Structural)]
pub enum TermColor {
    Black,
    Red,
    Green,
    Yellow,
    Blue,
    Magenta,
    Cyan,
    White,
    Color256(u8),
}

/// Color scheme definition for the GVM theme
#[derive(Debug, Clone, Copy, PartialEq, Eq, Structural)]
pub struct ColorScheme {
    pub primary: TermColor,
    pub secondary: TermColor,
    pub success: TermColor,
    pub warning: TermColor,
    pub error: TermColor,
    pub info: TermColor,
    pub muted: TermColor,
    pub accent: TermColor,
}

/// A text style: bold, dim, and the foreground and background colors.
#[derive(Debug, Clone, Copy, PartialEq, Eq, Structural)]
pub struct TextStyle {
    pub bold: bool,
    pub dim: bool,
    pub fg: Option<TermColor>,
    pub bg: Option<TermColor>,
}

/// Text styles for the parts of the output.
#[derive(Debug, Clone, Copy, PartialEq, Eq, Structural)]
pub struct StyleSet {
    pub header: TextStyle,
    pub subheader: TextStyle,
    pub success: TextStyle,
    pub error: TextStyle,
    pub warning: TextStyle,
    pub info: TextStyle,
    pub muted: TextStyle,
    pub highlight: TextStyle,
    pub code: TextStyle,
}

/// Main theme configuration for GVM
#[derive(Debug, Clone)]
pub struct GvmTheme {
    pub colors: ColorScheme,
    pub icons: IconSet,
    pub styles: StyleSet,
}

/// Theme manager for handling theme switching
#[derive(Debug, Clone)]
pub struct ThemeManager {
    pub current_theme: GvmTheme,
}

/// A style with the given weight and colors.
pub open spec fn style_of(bold: bool, dim: bool, fg: Option<TermColor>, bg: Option<TermColor>) -> TextStyle {
    TextStyle { bold, dim, fg, bg }
}

/// The color schemes of the themes.
pub open spec fn scheme_of(kind: ThemeKind) -> ColorScheme {
    match kind {
        ThemeKind::Default => ColorScheme {
            primary: TermColor::Cyan,
            secondary: TermColor::Blue,
            success: TermColor::Green,
            warning: TermColor::Yellow,
            error: TermColor::Red,
            info: TermColor::Blue,
            muted: TermColor::Color256(8),
            accent: TermColor::Magenta,
        },
        ThemeKind::Dark => ColorScheme {
            primary: TermColor::Color256(39),
            secondary: TermColor::Color256(33),
            success: TermColor::Color256(46),
            warning: TermColor::Color256(226),
            error: TermColor::Color256(196),
            info: TermColor::Color256(75),
            muted: TermColor::Color256(102),
            accent: TermColor::Color256(207),
        },
        ThemeKind::Light => ColorScheme {
            primary: TermColor::Color256(31),
            secondary: TermColor::Color256(25),
            success: TermColor::Color256(28),
            warning: TermColor::Color256(130),
            error: TermColor::Color256(124),
            info: TermColor::Color256(25),
            muted: TermColor::Color256(243),
            accent: TermColor::Color256(125),
        },
        ThemeKind::Minimal => ColorScheme {
            primary: TermColor::White,
            secondary: TermColor::White,
            success: TermColor::White,
            warning: TermColor::White,
            error: TermColor::White,
            info: TermColor::White,
            muted: TermColor::Color256(8),
            accent: TermColor::White,
        },
    }
}

/// The style sets: with colors, or only weights for minimal terminals.
pub open spec fn styles_of(minimal: bool) -> StyleSet {
    if minimal {
        StyleSet {
            header: style_of(true, false, None, None),
            subheader: style_of(true, false, None, None),
            success: style_of(false, false, None, None),
            error: style_of(true, false, None, None),
            warning: style_of(false, false, None, None),
            info: style_of(false, false, None, None),
            muted: style_of(false, true, None, None),
            highlight: style_of(true, false, None, None),
            code: style_of(true, false, None, None),
        }
    } else {
        StyleSet {
            header: style_of(true, false, Some(TermColor::Cyan), None),
            subheader: style_of(true, false, Some(TermColor::Blue), None),
            success: style_of(false, false, Some(TermColor::Green), None),
            error: style_of(true, false, Some(TermColor::Red), None),
            warning: style_of(false, false, Some(TermColor::Yellow), None),
            info: style_of(false, false, Some(TermColor::Blue), None),
            muted: style_of(false, true, None, None),
            highlight: style_of(true, false, Some(TermColor::Cyan), None),
            code: style_of(false, false, Some(TermColor::White), Some(TermColor::Black)),
        }
    }
}

/// A theme of the kind: its colors, the Unicode icons (ASCII for the
/// minimal theme) and its styles.
pub open spec fn is_theme(t: GvmTheme, kind: ThemeKind) -> bool {
    &&& t.colors == scheme_of(kind)
    &&& t.styles == styles_of(kind == ThemeKind::Minimal)
    &&& icon_texts(t.icons) == if kind == ThemeKind::Minimal {
        seq!["[✓]"@, "[✗]"@, "[!]"@, "[i]"@, "[*]"@, "[↓]"@, "[+]"@, "[>]"@, "->"@]
    } else {
        seq!["✅"@, "❌"@, "⚠️"@, "ℹ️"@, "📦"@, "⬇️"@, "⚙️"@, "⭐"@, "➡️"@]
    }
}

/// The color of a slot of a scheme.
pub open spec fn slot_color(c: ColorScheme, slot: ColorType) -> TermColor {
    match slot {
        ColorType::Primary => c.primary,
        ColorType::Secondary => c.secondary,
        ColorType::Success => c.success,
        ColorType::Warning => c.warning,
        ColorType::Error => c.error,
        ColorType::Info => c.info,
        ColorType::Muted => c.muted,
        ColorType::Accent => c.accent,
    }
}

impl ColorScheme {
    /// Default color scheme with cyan primary
    pub fn default() -> (res: Self)
        ensures
            res == scheme_of(ThemeKind::Default),
    {
        ColorScheme {
            primary: TermColor::Cyan,
            secondary: TermColor::Blue,
            success: TermColor::Green,
            warning: TermColor::Yellow,
            error: TermColor::Red,
            info: TermColor::Blue,
            muted: TermColor::Color256(8),
            accent: TermColor::Magenta,
        }
    }

    /// Dark theme optimized for dark terminals
    pub fn dark() -> (res: Self)
        ensures
            res == scheme_of(ThemeKind::Dark),
    {
        ColorScheme {
            primary: TermColor::Color256(39),
            secondary: TermColor::Color256(33),
            success: TermColor::Color256(46),
            warning: TermColor::Color256(226),
            error: TermColor::Color256(196),
            info: TermColor::Color256(75),
            muted: TermColor::Color256(102),
            accent: TermColor::Color256(207),
        }
    }

    /// Light theme optimized for light terminals
    pub fn light() -> (res: Self)
        ensures
            res == scheme_of(ThemeKind::Light),
    {
        ColorScheme {
            primary: TermColor::Color256(31),
            secondary: TermColor::Color256(25),
            success: TermColor::Color256(28),
            warning: TermColor::Color256(130),
            error: TermColor::Color256(124),
            info: TermColor::Color256(25),
            muted: TermColor::Color256(243),
            accent: TermColor::Color256(125),
        }
    }

    /// Monochrome theme for terminals without color support
    pub fn monochrome() -> (res: Self)
        ensures
            res == scheme_of(ThemeKind::Minimal),
    {
        ColorScheme {
            primary: TermColor::White,
            secondary: TermColor::White,
            success: TermColor::White,
            warning: TermColor::White,
            error: TermColor::White,
            info: TermColor::White,
            muted: TermColor::Color256(8),
            accent: TermColor::White,
        }
    }
}

impl TextStyle {
    /// A style with the given weight and colors.
    fn with(bold: bool, dim: bool, fg: Option<TermColor>, bg: Option<TermColor>) -> (res: Self)
        ensures
            res == style_of(bold, dim, fg, bg),
    {
        TextStyle { bold, dim, fg, bg }
    }
}

impl StyleSet {
    /// Default style set
    pub fn default() -> (res: Self)
        ensures
            res == styles_of(false),
    {
        StyleSet {
            header: TextStyle::with(true, false, Some(TermColor::Cyan), None),
            subheader: TextStyle::with(true, false, Some(TermColor::Blue), None),
            success: TextStyle::with(false, false, Some(TermColor::Green), None),
            error: TextStyle::with(true, false, Some(TermColor::Red), None),
            warning: TextStyle::with(false, false, Some(TermColor::Yellow), None),
            info: TextStyle::with(false, false, Some(TermColor::Blue), None),
            muted: TextStyle::with(false, true, None, None),
            highlight: TextStyle::with(true, false, Some(TermColor::Cyan), None),
            code: TextStyle::with(false, false, Some(TermColor::White), Some(TermColor::Black)),
        }
    }

    /// Minimal style set without colors
    pub fn minimal() -> (res: Self)
        ensures
            res == styles_of(true),
    {
        StyleSet {
            header: TextStyle::with(true, false, None, None),
            subheader: TextStyle::with(true, false, None, None),
            success: TextStyle::with(false, false, None, None),
            error: TextStyle::with(true, false, None, None),
            warning: TextStyle::with(false, false, None, None),
            info: TextStyle::with(false, false, None, None),
            muted: TextStyle::with(false, true, None, None),
            highlight: TextStyle::with(true, false, None, None),
            code: TextStyle::with(true, false, None, None),
        }
    }
}

impl GvmTheme {
    /// Create default theme
    pub fn default() -> (res: Self)
        ensures
            is_theme(res, ThemeKind::Default),
    {
        GvmTheme { colors: ColorScheme::default(), icons: IconSet::unicode(), styles: StyleSet::default() }
    }

    /// Create dark theme
    pub fn dark() -> (res: Self)
        ensures
            is_theme(res, ThemeKind::Dark),
    {
        GvmTheme { colors: ColorScheme::dark(), icons: IconSet::unicode(), styles: StyleSet::default() }
    }

    /// Create light theme
    pub fn light() -> (res: Self)
        ensures
            is_theme(res, ThemeKind::Light),
    {
        GvmTheme { colors: ColorScheme::light(), icons: IconSet::unicode(), styles: StyleSet::default() }
    }

    /// Create minimal theme for limited terminals
    pub fn minimal() -> (res: Self)
        ensures
            is_theme(res, ThemeKind::Minimal),
    {
        GvmTheme { colors: ColorScheme::monochrome(), icons: IconSet::ascii(), styles: StyleSet::minimal() }
    }

    /// The theme of a kind.
    pub fn of_kind(kind: ThemeKind) -> (res: Self)
        ensures
            is_theme(res, kind),
    {
        match kind {
            ThemeKind::Default => Self::default(),
            ThemeKind::Dark => Self::dark(),
            ThemeKind::Light => Self::light(),
            ThemeKind::Minimal => Self::minimal(),
        }
    }
}

impl ThemeManager {
    /// A manager with the theme of the kind that the terminal calls for
    /// (`auto_theme`).
    pub fn new(kind: ThemeKind) -> (res: Self)
        ensures
            is_theme(res.current_theme, kind),
    {
        ThemeManager { current_theme: GvmTheme::of_kind(kind) }
    }

    /// Create theme manager with specific theme
    pub fn with_theme(theme: GvmTheme) -> (res: Self)
        ensures
            res.current_theme == theme,
    {
        ThemeManager { current_theme: theme }
    }

    /// Get current theme
    pub fn current(&self) -> (res: &GvmTheme)
        ensures
            res == &self.current_theme,
    {
        &self.current_theme
    }

    /// Switch to a different theme
    pub fn switch_theme(&mut self, theme: GvmTheme)
        ensures
            final(self).current_theme == theme,
    {
        self.current_theme = theme;
    }

    /// The color that the current theme gives a slot.
    pub fn apply_color(&self, color_type: ColorType) -> (res: TermColor)
        ensures
            res == slot_color(self.current_theme.colors, color_type),
    {
        let c = &self.current_theme.colors;
        match color_type {
            ColorType::Primary => c.primary,
            ColorType::Secondary => c.secondary,
            ColorType::Success => c.success,
            ColorType::Warning => c.warning,
            ColorType::Error => c.error,
            ColorType::Info => c.info,
            ColorType::Muted => c.muted,
            ColorType::Accent => c.accent,
        }
    }
}

} // verus!
