//! Progress types: task identifiers, installation steps and task states.
use vstd::prelude::*;

verus! {

/// Unique identifier for installation tasks
#[derive(Debug, Clone, Eq, Hash)]
pub struct TaskId(pub String);

/// Two identifiers are equal when their texts are.
impl PartialEq for TaskId {
    fn eq(&self, other: &Self) -> (res: bool) {
        crate::text::str_equal(self.0.as_str(), other.0.as_str())
    }
}

impl vstd::std_specs::cmp::PartialEqSpecImpl for TaskId {
    open spec fn obeys_eq_spec() -> bool {
        true
    }

    open spec fn eq_spec(&self, other: &Self) -> bool {
        self.0@ == other.0@
    }
}

/// Law: identifiers made from two texts are equal exactly when the texts
/// are.
pub proof fn lemma_task_id_equality(x: TaskId, y: TaskId, a: Seq<char>, b: Seq<char>)
    requires
        x.0@ == a,
        y.0@ == b,
    ensures
        vstd::std_specs::cmp::PartialEqSpec::eq_spec(&x, &y) <==> a == b,
{
}

impl TaskId {
    pub fn new(id: &str) -> (res: Self)
        ensures
            res.0@ == id@,
    {
        TaskId(String::from_str(id))
    }

    /// The identifier's text.
    pub fn as_str(&self) -> (res: &str)
        ensures
            res@ == self.0@,
    {
        self.0.as_str()
    }
}

/// Installation step types with detailed information
#[derive(Debug, Clone)]
pub enum InstallStep {
    /// Initial validation phase
    Validating,
    /// Checking local cache for existing files
    CheckingCache,
    /// Creating necessary directories
    CreatingDirectories,
    /// Downloading files from remote sources
    Downloading { url: String, size: Option<u64>, filename: String },
    /// Extracting archive files
    Extracting { archive: String, destination: String },
    /// Installing components
    Installing { component: String },
    /// Configuring the installation
    Configuring,
    /// Verifying installation integrity
    Verifying,
    /// Finalizing installation
    Finalizing,
    /// Custom step with name and description
    Custom { name: String, description: String },
}

/// The description of a step.
pub open spec fn step_description(step: InstallStep) -> Seq<char> {
    match step {
        InstallStep::Validating => "Validating environment and requirements"@,
        InstallStep::CheckingCache => "Checking local cache for existing files"@,
        InstallStep::CreatingDirectories => "Creating installation directories"@,
        InstallStep::Downloading { filename, .. } => "Downloading "@ + filename@,
        InstallStep::Extracting { archive, .. } => "Extracting "@ + archive@,
        InstallStep::Installing { component } => "Installing "@ + component@,
        InstallStep::Configuring => "Configuring installation"@,
        InstallStep::Verifying => "Verifying installation integrity"@,
        InstallStep::Finalizing => "Finalizing installation"@,
        InstallStep::Custom { description, .. } => description@,
    }
}

/// The name of a step.
pub open spec fn step_name(step: InstallStep) -> Seq<char> {
    match step {
        InstallStep::Validating => "Validating"@,
        InstallStep::CheckingCache => "Checking Cache"@,
        InstallStep::CreatingDirectories => "Creating Directories"@,
        InstallStep::Downloading { .. } => "Downloading"@,
        InstallStep::Extracting { .. } => "Extracting"@,
        InstallStep::Installing { .. } => "Installing"@,
        InstallStep::Configuring => "Configuring"@,
        InstallStep::Verifying => "Verifying"@,
        InstallStep::Finalizing => "Finalizing"@,
        InstallStep::Custom { name, .. } => name@,
    }
}

impl InstallStep {
    /// Get a human-readable description of the step
    pub fn description(&self) -> (res: String)
        ensures
            res@ == step_description(*self),
    {
        match self {
            InstallStep::Validating => String::from_str("Validating environment and requirements"),
            InstallStep::CheckingCache => String::from_str("Checking local cache for existing files"),
            InstallStep::CreatingDirectories => String::from_str("Creating installation directories"),
            InstallStep::Downloading { filename, .. } => {
                let mut s = String::from_str("Downloading ");
                s.append(filename.as_str());
                s
            },
            InstallStep::Extracting { archive, .. } => {
                let mut s = String::from_str("Extracting ");
                s.append(archive.as_str());
                s
            },
            InstallStep::Installing { component } => {
                let mut s = String::from_str("Installing ");
                s.append(component.as_str());
                s
            },
            InstallStep::Configuring => String::from_str("Configuring installation"),
            InstallStep::Verifying => String::from_str("Verifying installation integrity"),
            InstallStep::Finalizing => String::from_str("Finalizing installation"),
            InstallStep::Custom { description, .. } => description.clone(),
        }
    }

    /// Get the step name
    pub fn name(&self) -> (res: &str)
        ensures
            res@ == step_name(*self),
    {
        match self {
            InstallStep::Validating => "Validating",
            InstallStep::CheckingCache => "Checking Cache",
            InstallStep::CreatingDirectories => "Creating Directories",
            InstallStep::Downloading { .. } => "Downloading",
            InstallStep::Extracting { .. } => "Extracting",
            InstallStep::Installing { .. } => "Installing",
            InstallStep::Configuring => "Configuring",
            InstallStep::Verifying => "Verifying",
            InstallStep::Finalizing => "Finalizing",
            InstallStep::Custom { name, .. } => name.as_str(),
        }
    }
}

/// Progress state for individual tasks
#[derive(Debug, Clone, PartialEq, Eq)]
pub enum ProgressState {
    NotStarted,
    InProgress,
    Completed,
    Failed { error: String },
    Cancelled,
}

/// Estimated time information, in seconds.
#[derive(Debug, Clone)]
pub struct EstimatedTime {
    pub total: Option<u64>,
    pub remaining: Option<u64>,
    pub per_step: Option<u64>,
}

impl EstimatedTime {
    pub fn new() -> (res: Self)
        ensures
            res.total is None,
            res.remaining is None,
            res.per_step is None,
    {
        EstimatedTime { total: None, remaining: None, per_step: None }
    }
}

} // verus!
