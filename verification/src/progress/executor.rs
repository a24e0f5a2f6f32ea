//! Running a plan: tasks in order, a log of what was done, and on the first
//! failure the undo steps of all tasks, the last task first.
//!
//! The program performs each task and undo step; the executor decides what
//! comes next and keeps the log.
use vstd::prelude::*;
use crate::error::{error_text, GvmError};
use crate::progress::tasks::{action_text, DetailedInstallPlan, InstallTask, ValidationCheck};
use crate::progress::types::TaskId;
use crate::text::{ascii_alnum, plain_version, char_is_alphanumeric, chars_of, decimal, is_alphanumeric_char, push_decimal};
use crate::units::{centis_of, centis_of_millis};

verus! {

/// Execution log entry for tracking what was done; `elapsed_ms` is the time
/// since the run started.
#[derive(Debug, Clone)]
pub struct ExecutionLogEntry {
    pub task_id: TaskId,
    pub action: String,
    pub elapsed_ms: u64,
    pub success: bool,
    pub details: String,
}

/// What was observed for a verification: whether the path exists, and
/// whether a file could be created in its parent directory.
#[derive(Debug, Clone, Copy)]
pub struct VerificationObservation {
    pub path_exists: bool,
    pub parent_writable: bool,
}

/// What running a plan does next.
#[derive(Debug)]
pub enum PlanAction {
    /// Run the task at this position.
    RunTask(usize),
    /// Run these undo steps, given as (task, step) positions, then report
    /// the failure.
    Rollback(Vec<(usize, usize)>),
    /// The run is over.
    Done(Result<(), GvmError>),
}

/// The details logged when every task of a plan ran.
pub open spec fn completion_details(total: nat, elapsed_ms: nat) -> Seq<char> {
    "All "@ + decimal(total) + " tasks completed in "@ + seconds_text(elapsed_ms) + "s"@
}

/// Runs a plan's tasks and keeps a log.
pub struct TaskExecutor {
    pub execution_log: Vec<ExecutionLogEntry>,
    pub total_steps: u8,
}

/// A log entry as plain values: task, action, success, details, time.
pub open spec fn entry_view(e: ExecutionLogEntry) -> (Seq<char>, Seq<char>, bool, Seq<char>, u64) {
    (e.task_id.0@, e.action@, e.success, e.details@, e.elapsed_ms)
}

/// The log as plain values.
pub open spec fn log_view(log: Seq<ExecutionLogEntry>) -> Seq<(Seq<char>, Seq<char>, bool, Seq<char>, u64)> {
    log.map_values(|e: ExecutionLogEntry| entry_view(e))
}

/// Whether every character of a version is alphanumeric, `.` or `-`.
pub open spec fn version_chars_ok(version: Seq<char>) -> bool {
    forall|i: int| 0 <= i < version.len() ==> is_alphanumeric_char(#[trigger] version[i]) || version[i] == '.' || version[i] == '-'
}

/// Why a verification fails, if it does.
pub open spec fn verification_failure(check: ValidationCheck, obs: VerificationObservation) -> Option<Seq<char>> {
    match check {
        ValidationCheck::VersionFormat { version } => if version_chars_ok(version@) {
            None
        } else {
            Some("Invalid version format: "@ + version@)
        },
        ValidationCheck::PathExists { path } => if obs.path_exists {
            None
        } else {
            Some("Path does not exist: "@ + path@)
        },
        ValidationCheck::PathWritable { path } => if obs.parent_writable {
            None
        } else {
            Some("Path is not writable: "@ + path@)
        },
        _ => None,
    }
}

/// The positions (task, step) of the undo steps of a plan's tasks, the last
/// task first and each task's steps in order.
pub open spec fn rollback_positions(tasks: Seq<InstallTask>) -> Seq<(int, int)>
    decreases tasks.len(),
{
    if tasks.len() == 0 {
        Seq::empty()
    } else {
        let last = tasks.len() - 1;
        Seq::new(tasks.last().rollback_steps@.len(), |j: int| (last, j)) + rollback_positions(tasks.drop_last())
    }
}

/// A duration of `ms` milliseconds in seconds with two decimals, as "<s>.<cc>":
/// its binary64 value in seconds, rounded to hundredths (ties to even).
pub open spec fn seconds_text(ms: nat) -> Seq<char> {
    let centis = centis_of(ms);
    decimal(centis / 100) + "."@ + decimal((centis % 100) / 10) + decimal(centis % 10)
}

impl TaskExecutor {
    /// Create a new task executor
    pub fn new(total_steps: u8) -> (res: Self)
        ensures
            res.execution_log@.len() == 0,
            res.total_steps == total_steps,
    {
        TaskExecutor { execution_log: Vec::new(), total_steps }
    }

    /// Get execution log
    pub fn get_execution_log(&self) -> (res: &Vec<ExecutionLogEntry>)
        ensures
            res@ == self.execution_log@,
    {
        &self.execution_log
    }

    /// Logs an operation.
    fn log(&mut self, task_id: &TaskId, action: &str, details: &str, success: bool, elapsed_ms: u64)
        ensures
            log_view(final(self).execution_log@) == log_view(old(self).execution_log@).push((task_id.0@, action@, success, details@, elapsed_ms)),
            final(self).total_steps == old(self).total_steps,
    {
        self.execution_log.push(ExecutionLogEntry {
            task_id: TaskId(task_id.0.clone()),
            action: String::from_str(action),
            elapsed_ms,
            success,
            details: String::from_str(details),
        });
        assert(log_view(self.execution_log@) =~= log_view(old(self).execution_log@).push((task_id.0@, action@, success, details@, elapsed_ms)));
    }

    /// Log successful operation
    pub fn log_success(&mut self, task_id: &TaskId, action: &str, details: &str, elapsed_ms: u64)
        ensures
            log_view(final(self).execution_log@) == log_view(old(self).execution_log@).push((task_id.0@, action@, true, details@, elapsed_ms)),
            final(self).total_steps == old(self).total_steps,
    {
        self.log(task_id, action, details, true, elapsed_ms);
    }

    /// Log failed operation
    pub fn log_failure(&mut self, task_id: &TaskId, action: &str, details: &str, elapsed_ms: u64)
        ensures
            log_view(final(self).execution_log@) == log_view(old(self).execution_log@).push((task_id.0@, action@, false, details@, elapsed_ms)),
            final(self).total_steps == old(self).total_steps,
    {
        self.log(task_id, action, details, false, elapsed_ms);
    }

    /// Whether a version holds only alphanumerics (as `char::is_alphanumeric`
    /// decides), `.` and `-`.
    pub fn is_valid_version_format(&self, version: &str) -> (res: bool)
        ensures
            res == version_chars_ok(version@),
            plain_version(version@) ==> res,
    {
        let chars = chars_of(version);
        let mut i: usize = 0;
        while i < chars.len()
            invariant
                chars@ == version@,
                i <= chars@.len(),
                forall|k: int| 0 <= k < i ==> is_alphanumeric_char(#[trigger] version@[k]) || version@[k] == '.' || version@[k] == '-',
            decreases chars@.len() - i,
        {
            let c = chars[i];
            if !(char_is_alphanumeric(c) || c == '.' || c == '-') {
                proof {
                    assert(!ascii_alnum(version@[i as int]));
                }
                return false;
            }
            i = i + 1;
        }
        true
    }

    /// The outcome of a verification, given what was observed. Checks other
    /// than the version format, a path's existence and its writability pass.
    pub fn execute_verification(&self, check: &ValidationCheck, obs: VerificationObservation) -> (res: Result<(), GvmError>)
        ensures
            match verification_failure(*check, obs) {
                Some(m) => res matches Err(GvmError::Rejected { reason }) && reason@ == m,
                None => res is Ok,
            },
    {
        match check {
            ValidationCheck::VersionFormat { version } => {
                if !self.is_valid_version_format(version.as_str()) {
                    let mut m = String::from_str("Invalid version format: ");
                    m.append(version.as_str());
                    return Err(GvmError::Rejected { reason: m });
                }
            },
            ValidationCheck::PathExists { path } => {
                if !obs.path_exists {
                    let mut m = String::from_str("Path does not exist: ");
                    m.append(path.as_str());
                    return Err(GvmError::Rejected { reason: m });
                }
            },
            ValidationCheck::PathWritable { path } => {
                if !obs.parent_writable {
                    let mut m = String::from_str("Path is not writable: ");
                    m.append(path.as_str());
                    return Err(GvmError::Rejected { reason: m });
                }
            },
            _ => {},
        }
        Ok(())
    }

    /// Logs the completion of every task of a plan.
    fn log_completion(&mut self, total: usize, elapsed_ms: u64)
        ensures
            log_view(final(self).execution_log@) == log_view(old(self).execution_log@).push(
                ("complete"@, "Complete Installation"@, true, completion_details(total as nat, elapsed_ms as nat), elapsed_ms),
            ),
            final(self).total_steps == old(self).total_steps,
    {
        let mut details = String::from_str("All ");
        push_decimal(&mut details, total as u128);
        details.append(" tasks completed in ");
        let secs = seconds_with_centis(elapsed_ms);
        details.append(secs.as_str());
        details.append("s");
        self.log_success(&TaskId::new("complete"), "Complete Installation", details.as_str(), elapsed_ms);
    }

    /// How running a plan starts: with its first task, or, for a plan
    /// without tasks, by logging completion.
    pub fn execute_plan(&mut self, plan: &DetailedInstallPlan, elapsed_ms: u64) -> (res: PlanAction)
        ensures
            plan.tasks@.len() > 0 ==> (res matches PlanAction::RunTask(i) && i == 0
                && final(self).execution_log@ == old(self).execution_log@),
            plan.tasks@.len() == 0 ==> (res matches PlanAction::Done(Ok(_))
                && log_view(final(self).execution_log@) == log_view(old(self).execution_log@).push(
                    ("complete"@, "Complete Installation"@, true, completion_details(0, elapsed_ms as nat), elapsed_ms),
                )),
            final(self).total_steps == old(self).total_steps,
    {
        if plan.tasks.len() > 0 {
            PlanAction::RunTask(0)
        } else {
            self.log_completion(0, elapsed_ms);
            PlanAction::Done(Ok(()))
        }
    }

    /// What follows the task at `index` once it ended with `outcome`: the
    /// success or the failure is logged; a success leads to the next task,
    /// or, after the last, to the logged completion; a failure leads to the
    /// undo steps of all tasks, the last task first.
    pub fn task_finished(&mut self, plan: &DetailedInstallPlan, index: usize, outcome: &Result<(), GvmError>, elapsed_ms: u64) -> (res: PlanAction)
        requires
            index < plan.tasks@.len(),
        ensures
            final(self).total_steps == old(self).total_steps,
            match outcome {
                Ok(_) => {
                    let logged = log_view(old(self).execution_log@).push((plan.tasks@[index as int].id.0@,
                        action_text(plan.tasks@[index as int].action), true, "Task completed successfully"@, elapsed_ms));
                    if index + 1 < plan.tasks@.len() {
                        res matches PlanAction::RunTask(i) && i == index + 1
                            && log_view(final(self).execution_log@) == logged
                    } else {
                        res matches PlanAction::Done(Ok(_))
                            && log_view(final(self).execution_log@) == logged.push(("complete"@,
                                "Complete Installation"@, true, completion_details(plan.tasks@.len(), elapsed_ms as nat), elapsed_ms))
                    }
                },
                Err(e) => {
                    &&& log_view(final(self).execution_log@) == log_view(old(self).execution_log@).push((
                        plan.tasks@[index as int].id.0@, action_text(plan.tasks@[index as int].action), false, error_text(*e), elapsed_ms))
                    &&& res matches PlanAction::Rollback(steps)
                        && steps@.map_values(|p: (usize, usize)| (p.0 as int, p.1 as int)) == rollback_positions(plan.tasks@)
                },
            },
    {
        let task = &plan.tasks[index];
        let action = task.action_description();
        match outcome {
            Ok(()) => {
                self.log_success(&task.id, action.as_str(), "Task completed successfully", elapsed_ms);
                if index < plan.tasks.len() - 1 {
                    PlanAction::RunTask(index + 1)
                } else {
                    self.log_completion(plan.tasks.len(), elapsed_ms);
                    PlanAction::Done(Ok(()))
                }
            },
            Err(e) => {
                let msg = e.message();
                self.log_failure(&task.id, action.as_str(), msg.as_str(), elapsed_ms);
                PlanAction::Rollback(Self::rollback_order(plan))
            },
        }
    }

    /// How a run ends after its undo steps: with the failure.
    pub fn rollback_finished(&self) -> (res: PlanAction)
        ensures
            res matches PlanAction::Done(Err(GvmError::Rejected { reason }))
                && reason@ == "Task execution failed, rollback completed"@,
    {
        PlanAction::Done(Err(GvmError::Rejected { reason: String::from_str("Task execution failed, rollback completed") }))
    }

    /// The undo steps to run after a failure, as positions (task, step): the
    /// tasks from last to first, each task's steps in order.
    pub fn rollback_order(plan: &DetailedInstallPlan) -> (res: Vec<(usize, usize)>)
        ensures
            res@.map_values(|p: (usize, usize)| (p.0 as int, p.1 as int)) == rollback_positions(plan.tasks@),
    {
        let tasks = &plan.tasks;
        let mut out: Vec<(usize, usize)> = Vec::new();
        let mut i: usize = tasks.len();
        proof {
            assert(tasks@.subrange(0, i as int) =~= tasks@);
        }
        while i > 0
            invariant
                i <= tasks@.len(),
                tasks@ == plan.tasks@,
                out@.map_values(|p: (usize, usize)| (p.0 as int, p.1 as int)) + rollback_positions(tasks@.subrange(0, i as int))
                    == rollback_positions(tasks@),
            decreases i,
        {
            i = i - 1;
            let ghost before = out@.map_values(|p: (usize, usize)| (p.0 as int, p.1 as int));
            let n = tasks[i].rollback_steps.len();
            let mut j: usize = 0;
            while j < n
                invariant
                    i < tasks@.len(),
                    n == tasks@[i as int].rollback_steps@.len(),
                    j <= n,
                    out@.map_values(|p: (usize, usize)| (p.0 as int, p.1 as int))
                        == before + Seq::new(j as nat, |k: int| (i as int, k)),
                decreases n - j,
            {
                let ghost prev = out@.map_values(|p: (usize, usize)| (p.0 as int, p.1 as int));
                out.push((i, j));
                proof {
                    assert(out@.map_values(|p: (usize, usize)| (p.0 as int, p.1 as int)) =~= prev.push((i as int, j as int)));
                    assert(out@.map_values(|p: (usize, usize)| (p.0 as int, p.1 as int))
                        =~= before + Seq::new((j + 1) as nat, |k: int| (i as int, k)));
                }
                j = j + 1;
            }
            proof {
                let pre = tasks@.subrange(0, i + 1);
                assert(pre.drop_last() =~= tasks@.subrange(0, i as int));
                assert(pre.last() == tasks@[i as int]);
                assert(rollback_positions(pre) == Seq::new(n as nat, |k: int| (i as int, k)) + rollback_positions(tasks@.subrange(0, i as int)));
                assert(out@.map_values(|p: (usize, usize)| (p.0 as int, p.1 as int)) + rollback_positions(tasks@.subrange(0, i as int))
                    =~= before + rollback_positions(pre));
            }
        }
        proof {
            assert(tasks@.subrange(0, 0) =~= Seq::<InstallTask>::empty());
            assert(out@.map_values(|p: (usize, usize)| (p.0 as int, p.1 as int)) + Seq::<(int, int)>::empty()
                =~= out@.map_values(|p: (usize, usize)| (p.0 as int, p.1 as int)));
        }
        out
    }
}

/// A duration of `ms` milliseconds in seconds with two decimals, as a
/// two-decimal rendering of its binary64 value in seconds gives it.
pub fn seconds_with_centis(ms: u64) -> (res: String)
    ensures
        res@ == seconds_text(ms as nat),
{
    let centis = centis_of_millis(ms);
    let mut s = String::new();
    push_decimal(&mut s, centis / 100);
    s.append(".");
    push_decimal(&mut s, (centis % 100) / 10);
    push_decimal(&mut s, centis % 10);
    s
}

} // verus!
