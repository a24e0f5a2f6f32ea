//! The planned installation: validation before, the plan, the switch to a
//! version that is already there, the plan's execution and validation after,
//! as a state machine; and the fallbacks when it fails.
use vstd::prelude::*;
use crate::error::{error_text, GvmError};
use crate::paths::{join, path_join};
use crate::platform::archive_name;
use crate::progress::planner::{is_install_plan, InstallPlanner};
use crate::progress::executor::ExecutionLogEntry;
use crate::progress::tasks::DetailedInstallPlan;
use crate::text::{decimal, push_decimal};
use crate::progress::validator::ValidationReport;
use crate::SwitchRequest;

verus! {

/// Where a planned installation stands.
#[derive(Debug, Clone, Copy, PartialEq, Eq, Structural)]
pub enum EnhancedStage {
    Validating,
    CheckingCache,
    CheckingVersionDir,
    Switching,
    Executing,
    PostValidating,
    Finished,
}

/// What the program observed of the last action.
#[derive(Debug)]
pub enum EnhancedEvent {
    /// The checks before installing ended so.
    Validated(Result<ValidationReport, GvmError>),
    /// Whether the path exists.
    Exists(bool),
    /// The switch or the plan's execution ended so.
    Completed(Result<(), GvmError>),
    /// The checks after installing ended so.
    PostValidated(Result<ValidationReport, GvmError>),
}

/// How a planned installation ended well.
#[derive(Debug, Clone, Copy, PartialEq, Eq, Structural)]
pub enum EnhancedOutcome {
    /// The version was installed already; it is now the active one.
    Switched,
    /// The plan ran; the checks after it passed or found issues.
    Installed { post_validation_passed: bool },
}

/// The next thing for the program to do.
#[derive(Debug)]
pub enum EnhancedAction {
    /// Run the checks before installing.
    PreValidate { version: String, install_dir: String, cache_dir: String, force: bool },
    /// Report whether the path exists.
    CheckExists { path: String },
    /// Switch to the installed version.
    Switch { request: SwitchRequest },
    /// Run the plan.
    ExecutePlan { plan: DetailedInstallPlan },
    /// Run the checks after installing, on the version's directory.
    PostValidate { version: String, version_dir: String },
    /// The installation is over.
    Finish { result: Result<EnhancedOutcome, GvmError> },
}

/// A planned installation in progress.
pub struct EnhancedInstall {
    pub version: String,
    pub install_dir: String,
    pub cache_dir: String,
    pub force: bool,
    pub planner: InstallPlanner,
    /// Whether the archive was found in the cache.
    pub cached_archive_exists: bool,
    pub stage: EnhancedStage,
}

/// The archive that the planner looks for in the cache.
pub open spec fn cached_archive(e: EnhancedInstall) -> Seq<char> {
    path_join(e.cache_dir@, archive_name(e.version@, e.planner.platform_info.os@, e.planner.platform_info.arch@,
        e.planner.platform_info.extension@))
}

/// Whether an event is the kind of observation that a stage waits on.
pub open spec fn fits(stage: EnhancedStage, event: EnhancedEvent) -> bool {
    match stage {
        EnhancedStage::Validating => event is Validated,
        EnhancedStage::CheckingCache | EnhancedStage::CheckingVersionDir => event is Exists,
        EnhancedStage::Switching | EnhancedStage::Executing => event is Completed,
        EnhancedStage::PostValidating => event is PostValidated,
        EnhancedStage::Finished => false,
    }
}

/// The stage after `stage` once `event` is observed.
pub open spec fn enhanced_next(stage: EnhancedStage, event: EnhancedEvent, force: bool) -> EnhancedStage {
    match stage {
        EnhancedStage::Validating => match event {
            EnhancedEvent::Validated(Ok(report)) => if report.overall_success {
                EnhancedStage::CheckingCache
            } else {
                EnhancedStage::Finished
            },
            _ => EnhancedStage::Finished,
        },
        EnhancedStage::CheckingCache => EnhancedStage::CheckingVersionDir,
        EnhancedStage::CheckingVersionDir => if event matches EnhancedEvent::Exists(true) && !force {
            EnhancedStage::Switching
        } else {
            EnhancedStage::Executing
        },
        EnhancedStage::Executing => if event matches EnhancedEvent::Completed(Ok(_)) {
            EnhancedStage::PostValidating
        } else {
            EnhancedStage::Finished
        },
        _ => EnhancedStage::Finished,
    }
}

/// How the installation ends when `event` at `stage` leads to the end.
pub open spec fn enhanced_outcome(stage: EnhancedStage, event: EnhancedEvent, r: Result<EnhancedOutcome, GvmError>) -> bool {
    match stage {
        EnhancedStage::Validating => match event {
            EnhancedEvent::Validated(Err(e)) => r == Err::<EnhancedOutcome, GvmError>(e),
            _ => r matches Err(GvmError::Rejected { reason }) && reason@ == "Pre-installation validation failed"@,
        },
        EnhancedStage::Switching => match event {
            EnhancedEvent::Completed(Err(e)) => r == Err::<EnhancedOutcome, GvmError>(e),
            _ => r == Ok::<EnhancedOutcome, GvmError>(EnhancedOutcome::Switched),
        },
        EnhancedStage::Executing => match event {
            EnhancedEvent::Completed(Err(e)) => r == Err::<EnhancedOutcome, GvmError>(e),
            _ => false,
        },
        EnhancedStage::PostValidating => match event {
            EnhancedEvent::PostValidated(Ok(report)) => r == Ok::<EnhancedOutcome, GvmError>(
                EnhancedOutcome::Installed { post_validation_passed: report.overall_success },
            ),
            EnhancedEvent::PostValidated(Err(e)) => r == Err::<EnhancedOutcome, GvmError>(e),
            _ => false,
        },
        _ => false,
    }
}

/// How the basic installation proceeds.
#[derive(Debug, Clone, Copy, PartialEq, Eq, Structural)]
pub enum BasicRoute {
    /// The version is installed and reinstalling is not forced: nothing to do.
    AlreadyInstalled,
    /// Install, after removing the installed version when `remove_existing`.
    Install { remove_existing: bool },
}

/// The number of successful entries of a log.
pub open spec fn successful_entries(log: Seq<ExecutionLogEntry>) -> nat
    decreases log.len(),
{
    if log.len() == 0 {
        0
    } else {
        successful_entries(log.drop_last()) + if log.last().success { 1nat } else { 0nat }
    }
}

/// A log entry as a line: a check or a cross, the task, the action and
/// the details.
pub open spec fn entry_line(e: ExecutionLogEntry) -> Seq<char> {
    (if e.success { "✅"@ } else { "❌"@ }) + " ["@ + e.task_id.0@ + "] "@ + e.action@ + ": "@ + e.details@
}

/// Decides the basic installation, given whether the version's directory exists.
pub fn install_basic_fallback(version_exists: bool, force: bool) -> (res: BasicRoute)
    ensures
        res == (if version_exists && !force {
            BasicRoute::AlreadyInstalled
        } else {
            BasicRoute::Install { remove_existing: force && version_exists }
        }),
{
    if version_exists && !force {
        BasicRoute::AlreadyInstalled
    } else {
        BasicRoute::Install { remove_existing: force && version_exists }
    }
}

/// The planned installation falls back to the basic one when it fails; the
/// warnings say so and show the error.
pub fn install_with_fallback(enhanced: &Result<EnhancedOutcome, GvmError>) -> (res: Vec<String>)
    ensures
        match enhanced {
            Ok(_) => res@.len() == 0,
            Err(e) => res@.len() == 2
                && res@[0]@ == "Enhanced installation failed, falling back to basic installation"@
                && res@[1]@ == "Error: "@ + error_text(*e),
        },
{
    let mut warnings: Vec<String> = Vec::new();
    match enhanced {
        Ok(_) => {},
        Err(e) => {
            warnings.push(String::from_str("Enhanced installation failed, falling back to basic installation"));
            let mut w = String::from_str("Error: ");
            let m = e.message();
            w.append(m.as_str());
            warnings.push(w);
        },
    }
    warnings
}

/// The counts of an execution summary: all entries, the successful ones and
/// the failed ones.
pub fn display_execution_summary(log: &Vec<ExecutionLogEntry>) -> (res: (usize, usize, usize))
    ensures
        res.0 == log@.len(),
        res.1 == successful_entries(log@),
        res.2 == log@.len() - successful_entries(log@),
{
    let mut ok: usize = 0;
    let mut i: usize = 0;
    while i < log.len()
        invariant
            i <= log@.len(),
            ok == successful_entries(log@.subrange(0, i as int)),
            ok <= i,
        decreases log@.len() - i,
    {
        proof {
            assert(log@.subrange(0, i + 1).drop_last() =~= log@.subrange(0, i as int));
        }
        if log[i].success {
            ok = ok + 1;
        }
        i = i + 1;
    }
    assert(log@.subrange(0, i as int) =~= log@);
    (log.len(), ok, log.len() - ok)
}

/// The lines of an execution log as shown: the first ten entries, then how
/// many more there are, if any.
pub fn display_execution_log(log: &Vec<ExecutionLogEntry>) -> (res: Vec<String>)
    ensures
        log@.len() <= 10 ==> res@.len() == log@.len(),
        log@.len() > 10 ==> res@.len() == 11 && res@[10]@ == "... and "@ + decimal((log@.len() - 10) as nat) + " more entries"@,
        forall|i: int| 0 <= i < res@.len() && i < 10 && i < log@.len() ==> #[trigger] res@[i]@ == entry_line(log@[i]),
{
    let mut lines: Vec<String> = Vec::new();
    let mut i: usize = 0;
    while i < log.len() && i < 10
        invariant
            i <= log@.len(),
            i <= 10,
            lines@.len() == i,
            forall|k: int| 0 <= k < i ==> #[trigger] lines@[k]@ == entry_line(log@[k]),
        decreases 10 - i,
    {
        let e = &log[i];
        let mut s = String::from_str(if e.success { "✅" } else { "❌" });
        s.append(" [");
        s.append(e.task_id.0.as_str());
        s.append("] ");
        s.append(e.action.as_str());
        s.append(": ");
        s.append(e.details.as_str());
        lines.push(s);
        i = i + 1;
    }
    if log.len() > 10 {
        let mut s = String::from_str("... and ");
        push_decimal(&mut s, (log.len() - 10) as u128);
        s.append(" more entries");
        lines.push(s);
    }
    lines
}

impl EnhancedInstall {
    /// Starts a planned installation: the checks before installing come first.
    pub fn start(version: &str, install_dir: &str, cache_dir: &str, force: bool, planner: InstallPlanner) -> (res: (EnhancedInstall, EnhancedAction))
        ensures
            res.0.version@ == version@,
            res.0.install_dir@ == install_dir@,
            res.0.cache_dir@ == cache_dir@,
            res.0.force == force,
            res.0.planner == planner,
            res.0.stage == EnhancedStage::Validating,
            res.1 matches EnhancedAction::PreValidate { version: v, install_dir: i, cache_dir: c, force: f }
                && v@ == version@ && i@ == install_dir@ && c@ == cache_dir@ && f == force,
    {
        let action = EnhancedAction::PreValidate {
            version: String::from_str(version),
            install_dir: String::from_str(install_dir),
            cache_dir: String::from_str(cache_dir),
            force,
        };
        (EnhancedInstall {
            version: String::from_str(version),
            install_dir: String::from_str(install_dir),
            cache_dir: String::from_str(cache_dir),
            force,
            planner,
            cached_archive_exists: false,
            stage: EnhancedStage::Validating,
        }, action)
    }

    /// Takes what was observed of the last action and gives the next one.
    /// Once the archive's presence in the cache is known, the plan is made;
    /// it runs unless the version is installed and reinstalling is not
    /// forced, in which case the installation switches to it.
    pub fn step(&mut self, event: EnhancedEvent) -> (res: EnhancedAction)
        requires
            fits(old(self).stage, event),
        ensures
            final(self).version == old(self).version,
            final(self).install_dir == old(self).install_dir,
            final(self).cache_dir == old(self).cache_dir,
            final(self).force == old(self).force,
            final(self).planner == old(self).planner,
            old(self).stage == EnhancedStage::CheckingCache ==> final(self).cached_archive_exists == (event matches EnhancedEvent::Exists(true)),
            old(self).stage != EnhancedStage::CheckingCache ==> final(self).cached_archive_exists == old(self).cached_archive_exists,
            final(self).stage == enhanced_next(old(self).stage, event, old(self).force),
            final(self).stage == EnhancedStage::Finished ==> (res matches EnhancedAction::Finish { result }
                && enhanced_outcome(old(self).stage, event, result)),
            final(self).stage == EnhancedStage::CheckingCache ==> (res matches EnhancedAction::CheckExists { path }
                && path@ == cached_archive(*old(self))),
            final(self).stage == EnhancedStage::CheckingVersionDir ==> (res matches EnhancedAction::CheckExists { path }
                && path@ == path_join(old(self).install_dir@, old(self).version@)),
            final(self).stage == EnhancedStage::Switching ==> (res matches EnhancedAction::Switch { request }
                && request.version@ == old(self).version@ && request.base_dir@ == old(self).install_dir@
                && !request.global && !request.force),
            final(self).stage == EnhancedStage::Executing ==> (res matches EnhancedAction::ExecutePlan { plan }
                && is_install_plan(plan, old(self).planner.platform_info, old(self).version@,
                    old(self).install_dir@, old(self).cache_dir@, old(self).force, old(self).cached_archive_exists)),
            final(self).stage == EnhancedStage::PostValidating ==> (res matches EnhancedAction::PostValidate { version, version_dir }
                && version@ == old(self).version@ && version_dir@ == path_join(old(self).install_dir@, old(self).version@)),
    {
        match self.stage {
            EnhancedStage::Validating => {
                match event {
                    EnhancedEvent::Validated(Ok(report)) => {
                        if report.overall_success {
                            self.stage = EnhancedStage::CheckingCache;
                            let name = self.planner.platform_info.archive_filename(self.version.as_str());
                            EnhancedAction::CheckExists { path: join(self.cache_dir.as_str(), name.as_str()) }
                        } else {
                            self.stage = EnhancedStage::Finished;
                            EnhancedAction::Finish {
                                result: Err(GvmError::Rejected { reason: String::from_str("Pre-installation validation failed") }),
                            }
                        }
                    },
                    EnhancedEvent::Validated(Err(e)) => {
                        self.stage = EnhancedStage::Finished;
                        EnhancedAction::Finish { result: Err(e) }
                    },
                    _ => {
                        assert(false);
                        EnhancedAction::CheckExists { path: String::new() }
                    },
                }
            },
            EnhancedStage::CheckingCache => {
                self.cached_archive_exists = match event {
                    EnhancedEvent::Exists(b) => b,
                    _ => false,
                };
                self.stage = EnhancedStage::CheckingVersionDir;
                EnhancedAction::CheckExists { path: join(self.install_dir.as_str(), self.version.as_str()) }
            },
            EnhancedStage::CheckingVersionDir => {
                let exists = match event {
                    EnhancedEvent::Exists(b) => b,
                    _ => false,
                };
                if exists && !self.force {
                    self.stage = EnhancedStage::Switching;
                    EnhancedAction::Switch {
                        request: SwitchRequest {
                            version: self.version.clone(),
                            base_dir: self.install_dir.clone(),
                            global: false,
                            force: false,
                        },
                    }
                } else {
                    self.stage = EnhancedStage::Executing;
                    let plan = self.make_plan(self.cached_archive_exists);
                    EnhancedAction::ExecutePlan { plan }
                }
            },
            EnhancedStage::Switching => {
                self.stage = EnhancedStage::Finished;
                match event {
                    EnhancedEvent::Completed(Err(e)) => EnhancedAction::Finish { result: Err(e) },
                    _ => EnhancedAction::Finish { result: Ok(EnhancedOutcome::Switched) },
                }
            },
            EnhancedStage::Executing => {
                match event {
                    EnhancedEvent::Completed(Ok(())) => {
                        self.stage = EnhancedStage::PostValidating;
                        EnhancedAction::PostValidate {
                            version: self.version.clone(),
                            version_dir: join(self.install_dir.as_str(), self.version.as_str()),
                        }
                    },
                    _ => {
                        self.stage = EnhancedStage::Finished;
                        match event {
                            EnhancedEvent::Completed(Err(e)) => EnhancedAction::Finish { result: Err(e) },
                            _ => {
                                assert(false);
                                EnhancedAction::CheckExists { path: String::new() }
                            },
                        }
                    },
                }
            },
            _ => {
                self.stage = EnhancedStage::Finished;
                match event {
                    EnhancedEvent::PostValidated(Ok(report)) => EnhancedAction::Finish {
                        result: Ok(EnhancedOutcome::Installed { post_validation_passed: report.overall_success }),
                    },
                    EnhancedEvent::PostValidated(Err(e)) => EnhancedAction::Finish { result: Err(e) },
                    _ => {
                        assert(false);
                        EnhancedAction::CheckExists { path: String::new() }
                    },
                }
            },
        }
    }

    /// The plan, given whether the archive is cached.
    fn make_plan(&self, cached: bool) -> (res: DetailedInstallPlan)
        ensures
            is_install_plan(res, self.planner.platform_info, self.version@, self.install_dir@, self.cache_dir@, self.force, cached),
    {
        self.planner.create_detailed_plan(
            self.version.as_str(),
            self.install_dir.as_str(),
            self.cache_dir.as_str(),
            self.force,
            cached,
        ).unwrap()
    }
}

} // verus!
