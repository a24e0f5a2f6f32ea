//! Basic progress display: the text that the progress lines show.
use vstd::prelude::*;
use crate::units::{format_scaled, scaled_size_text};
use crate::text::str_equal;

verus! {

/// Whether output should be coloured: `NO_COLOR` is unset and `TERM` (empty
/// when unset) is not `"dumb"`.
pub fn should_use_colors(no_color_set: bool, term: &str) -> (res: bool)
    ensures
        res == (!no_color_set && term@ != "dumb"@),
{
    let dumb = "dumb";
    if no_color_set {
        false
    } else {
        !str_equal(term, dumb)
    }
}

/// The size text of the progress line: `"500 B"` below a kilobyte, otherwise
/// one decimal and the unit without a space, as in `"1.0KB"`.
pub fn format_size(bytes: u64) -> (res: String)
    ensures
        res@ == scaled_size_text(bytes as nat, 3, Seq::<char>::empty()),
{
    proof {
        reveal_strlit("");
    }
    format_scaled(bytes, 3, "")
}

/// Basic progress indicator.
#[derive(Clone)]
pub struct BasicProgress {
    pub label: String,
    pub use_colors: bool,
}

impl BasicProgress {
    /// Creates a new progress indicator with the given label.
    pub fn new(label: String, use_colors: bool) -> (res: Self)
        ensures
            res.label@ == label@,
            res.use_colors == use_colors,
    {
        BasicProgress { label, use_colors }
    }

    /// The label shown before the bar.
    pub fn label(&self) -> (res: &str)
        ensures
            res@ == self.label@,
    {
        self.label.as_str()
    }

    /// Whether the indicator colours its final line.
    pub fn use_colors(&self) -> (res: bool)
        ensures
            res == self.use_colors,
    {
        self.use_colors
    }

    /// The size information shown with a download: `"<done>/<total>"` when the
    /// total is known (non-zero), otherwise the downloaded size alone.
    pub fn download_info(downloaded: u64, total: u64) -> (res: String)
        ensures
            total > 0 ==> res@ == scaled_size_text(downloaded as nat, 3, Seq::<char>::empty())
                + "/"@ + scaled_size_text(total as nat, 3, Seq::<char>::empty()),
            total == 0 ==> res@ == scaled_size_text(downloaded as nat, 3, Seq::<char>::empty()),
    {
        if total > 0 {
            let mut s = format_size(downloaded);
            s.append("/");
            let t = format_size(total);
            s.append(t.as_str());
            s
        } else {
            format_size(downloaded)
        }
    }

    /// The final line when the operation is done.
    pub fn done_text(&self, message: &str) -> (res: String)
        ensures
            self.use_colors ==> res@ == message@ + " ... \x1b[32mdone\x1b[0m."@,
            !self.use_colors ==> res@ == message@ + " ... done."@,
    {
        let mut s = String::from_str(message);
        if self.use_colors {
            s.append(" ... \x1b[32mdone\x1b[0m.");
        } else {
            s.append(" ... done.");
        }
        s
    }

    /// The final line when the operation failed.
    pub fn failed_text(&self, message: &str) -> (res: String)
        ensures
            self.use_colors ==> res@ == message@ + " ... \x1b[31mfailed\x1b[0m."@,
            !self.use_colors ==> res@ == message@ + " ... failed."@,
    {
        let mut s = String::from_str(message);
        if self.use_colors {
            s.append(" ... \x1b[31mfailed\x1b[0m.");
        } else {
            s.append(" ... failed.");
        }
        s
    }
}

/// Installation steps: the text of each step line.
pub struct InstallSteps {
    pub use_colors: bool,
}

impl InstallSteps {
    /// Creates the step printer.
    pub fn new(use_colors: bool) -> (res: Self)
        ensures
            res.use_colors == use_colors,
    {
        InstallSteps { use_colors }
    }

    /// The line that opens an installation.
    pub fn start_text(&self, version: &str) -> (res: String)
        ensures
            self.use_colors ==> res@ == "\x1b[36mInstalling 'go' ("@ + version@
                + ") [64bit] from 'workspace'\x1b[0m"@,
            !self.use_colors ==> res@ == "Installing 'go' ("@ + version@
                + ") [64bit] from 'workspace'"@,
    {
        let mut s = if self.use_colors {
            String::from_str("\x1b[36mInstalling 'go' (")
        } else {
            String::from_str("Installing 'go' (")
        };
        s.append(version);
        if self.use_colors {
            s.append(") [64bit] from 'workspace'\x1b[0m");
        } else {
            s.append(") [64bit] from 'workspace'");
        }
        s
    }

    /// The line of an informational step.
    pub fn info_text(&self, message: &str) -> (res: String)
        ensures
            self.use_colors ==> res@ == "\x1b[90m"@ + message@ + "\x1b[0m"@,
            !self.use_colors ==> res@ == message@,
    {
        if self.use_colors {
            let mut s = String::from_str("\x1b[90m");
            s.append(message);
            s.append("\x1b[0m");
            s
        } else {
            String::from_str(message)
        }
    }

    /// The line of a warning.
    pub fn warn_text(&self, message: &str) -> (res: String)
        ensures
            self.use_colors ==> res@ == "\x1b[33mWARN\x1b[0m "@ + message@,
            !self.use_colors ==> res@ == "WARN "@ + message@,
    {
        let mut s = if self.use_colors {
            String::from_str("\x1b[33mWARN\x1b[0m ")
        } else {
            String::from_str("WARN ")
        };
        s.append(message);
        s
    }

    /// The line that closes a successful installation.
    pub fn complete_text(&self, version: &str) -> (res: String)
        ensures
            self.use_colors ==> res@ == "\x1b[32m'go' ("@ + version@
                + ") was installed successfully!\x1b[0m"@,
            !self.use_colors ==> res@ == "'go' ("@ + version@ + ") was installed successfully!"@,
    {
        let mut s = if self.use_colors {
            String::from_str("\x1b[32m'go' (")
        } else {
            String::from_str("'go' (")
        };
        s.append(version);
        if self.use_colors {
            s.append(") was installed successfully!\x1b[0m");
        } else {
            s.append(") was installed successfully!");
        }
        s
    }
}

} // verus!
