//! The steps of an installation as the progress display names them.
use vstd::prelude::*;

verus! {

/// Installation step enumeration for multi-step progress
#[derive(Debug, Clone)]
pub enum InstallStep {
    Download,
    Verify,
    Extract,
    Configure,
    Finalize,
}

impl InstallStep {
    /// Get human-readable description
    pub fn description(&self) -> (res: &'static str)
        ensures
            res@ == match *self {
                InstallStep::Download => "Downloading Go archive"@,
                InstallStep::Verify => "Verifying download integrity"@,
                InstallStep::Extract => "Extracting files"@,
                InstallStep::Configure => "Configuring installation"@,
                InstallStep::Finalize => "Finalizing setup"@,
            },
    {
        match self {
            InstallStep::Download => "Downloading Go archive",
            InstallStep::Verify => "Verifying download integrity",
            InstallStep::Extract => "Extracting files",
            InstallStep::Configure => "Configuring installation",
            InstallStep::Finalize => "Finalizing setup",
        }
    }

    /// Get all steps in order
    pub fn all_steps() -> (res: Vec<InstallStep>)
        ensures
            res@.len() == 5,
            res@[0] is Download,
            res@[1] is Verify,
            res@[2] is Extract,
            res@[3] is Configure,
            res@[4] is Finalize,
    {
        let mut v = Vec::new();
        v.push(InstallStep::Download);
        v.push(InstallStep::Verify);
        v.push(InstallStep::Extract);
        v.push(InstallStep::Configure);
        v.push(InstallStep::Finalize);
        v
    }
}

} // verus!
