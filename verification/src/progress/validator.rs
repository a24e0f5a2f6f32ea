//! Validation of an installation: checks before, during and after it, each
//! recorded with its outcome, and a report of them.
//!
//! The checks decide on what the program observed of the file system; each
//! observation carries the time it took, which the check records.
use vstd::prelude::*;
use crate::error::{error_text, GvmError};
use crate::paths::{join, path_join};
use crate::progress::types::InstallStep;
use crate::text::{ascii_alnum, plain_version, char_is_alphanumeric, chars_of, decimal, is_alphanumeric_char, push_decimal};

verus! {

/// Result of a validation check
#[derive(Debug, Clone)]
pub struct ValidationResult {
    pub check_type: String,
    pub success: bool,
    pub message: String,
    pub timestamp: String,
    pub duration_ms: u64,
}

/// Validation report containing all validation results
#[derive(Debug)]
pub struct ValidationReport {
    pub overall_success: bool,
    pub total_checks: usize,
    pub successful_checks: usize,
    pub failed_checks: usize,
    pub total_duration_ms: u64,
    pub results: Vec<ValidationResult>,
}

/// Validation engine: the checks performed so far.
pub struct ValidationEngine {
    pub checks_performed: Vec<ValidationResult>,
}

/// What was observed of a path, and how long observing it took.
#[derive(Debug, Clone, Copy)]
pub struct PathObservation {
    pub exists: bool,
    pub is_dir: bool,
    pub is_file: bool,
    pub elapsed_ms: u64,
}

/// The outcome of writing a test file into each directory that exists
/// (`None` for a directory that does not), and how long it took.
#[derive(Debug, Clone, Copy)]
pub struct WriteObservation {
    pub install_dir_writable: Option<bool>,
    pub cache_dir_writable: Option<bool>,
    pub elapsed_ms: u64,
}

/// What was observed before installing.
#[derive(Debug, Clone, Copy)]
pub struct PreInstallObservations {
    pub install_dir: PathObservation,
    pub cache_dir: PathObservation,
    pub writes: WriteObservation,
    pub version_dir: PathObservation,
}

/// Whether the `bin`, `src` and `pkg` directories exist, and how long
/// looking took.
#[derive(Debug, Clone, Copy)]
pub struct StructureObservation {
    pub bin_exists: bool,
    pub src_exists: bool,
    pub pkg_exists: bool,
    pub elapsed_ms: u64,
}

/// What was observed after installing: the version's directory, the Go
/// executable, and the directories a Go tree holds.
#[derive(Debug, Clone, Copy)]
pub struct PostInstallObservations {
    pub version_dir: PathObservation,
    pub go_binary: PathObservation,
    pub structure: StructureObservation,
}

/// What was observed during installation: the archive and the installed tree.
#[derive(Debug, Clone, Copy)]
pub struct RuntimeObservations {
    pub archive: PathObservation,
    pub install_path: PathObservation,
}

/// Context for runtime validation
#[derive(Debug, Clone)]
pub struct RuntimeValidationContext {
    pub download_url: Option<String>,
    pub archive_path: Option<String>,
    pub install_path: Option<String>,
    pub expected_size: Option<u64>,
}

/// A reading of the system clock: whole seconds since 1970-01-01 00:00:00
/// UTC (negative before it) and the nanoseconds past them.
#[derive(Debug, Clone, Copy)]
pub struct ClockReading {
    pub secs: i64,
    pub nanos: u32,
}

/// The RFC 3339 text of a time given in seconds and nanoseconds since
/// 1970-01-01 UTC, if chrono can represent that time.
pub uninterp spec fn rfc3339_of(secs: int, nanos: int) -> Option<Seq<char>>;

/// `chrono::DateTime::<Utc>::from_timestamp(secs, nanos)` written with
/// `to_rfc3339`: `None` where `from_timestamp` gives none (a time out of
/// chrono's range, or nanoseconds out of range). The text is named, not
/// spelled out.
#[verifier::external_body]
fn rfc3339_utc(secs: i64, nanos: u32) -> (res: Option<String>)
    ensures
        match res {
            Some(s) => rfc3339_of(secs as int, nanos as int) == Some(s@),
            None => rfc3339_of(secs as int, nanos as int) is None,
        },
{
    match chrono::DateTime::from_timestamp(secs, nanos) {
        Some(t) => Some(t.to_rfc3339()),
        None => None,
    }
}

/// The timestamp recorded for a check made at `clock`: its RFC 3339 text,
/// or no text where the clock reads a time chrono cannot represent.
pub open spec fn timestamp_text(clock: ClockReading) -> Seq<char> {
    match rfc3339_of(clock.secs as int, clock.nanos as int) {
        Some(s) => s,
        None => Seq::empty(),
    }
}

/// The timestamp recorded for a check made at `clock`.
pub fn timestamp_of(clock: ClockReading) -> (res: String)
    ensures
        res@ == timestamp_text(clock),
{
    match rfc3339_utc(clock.secs, clock.nanos) {
        Some(s) => s,
        None => String::new(),
    }
}

/// Whether `new` keeps the results of `old` and each result added since
/// carries the timestamp `t`.
pub open spec fn stamped(old: Seq<ValidationResult>, new: Seq<ValidationResult>, t: Seq<char>) -> bool {
    &&& old.len() <= new.len()
    &&& forall|k: int| 0 <= k < old.len() ==> #[trigger] new[k] == old[k]
    &&& forall|k: int| old.len() <= k < new.len() ==> (#[trigger] new[k]).timestamp@ == t
}

/// The characters a version may hold: alphanumerics, `.` and `-`.
pub open spec fn version_char_ok(c: char, alphanumeric: bool) -> bool {
    alphanumeric || c == '.' || c == '-'
}

/// Why a version's format is refused, if it is: given, for each character,
/// whether it is alphanumeric.
pub open spec fn version_format_problem(version: Seq<char>, alphanumeric: Seq<bool>) -> Option<Seq<char>> {
    if version.len() == 0 {
        Some("Version cannot be empty"@)
    } else if exists|i: int| 0 <= i < version.len() && !version_char_ok(version[i], #[trigger] alphanumeric[i]) {
        Some("Version contains invalid characters"@)
    } else {
        None
    }
}

/// Why a version's format is refused, if it is, with `char::is_alphanumeric`
/// deciding which characters are alphanumeric.
pub open spec fn version_format_outcome(version: Seq<char>) -> Option<Seq<char>> {
    version_format_problem(version, Seq::new(version.len(), |i: int| is_alphanumeric_char(version[i])))
}

/// A recorded check as plain values: kind, success, message, duration.
pub type Rec = (Seq<char>, bool, Seq<char>, u64);

/// The recorded checks as plain values.
pub open spec fn records(v: Seq<ValidationResult>) -> Seq<Rec> {
    v.map_values(|r: ValidationResult| (r.check_type@, r.success, r.message@, r.duration_ms))
}

/// The record of a check of kind `kind` that found `problem` (if any),
/// with the messages for success and for failure.
pub open spec fn rec_of(kind: Seq<char>, problem: Option<Seq<char>>, ok_message: Seq<char>, failure_prefix: Seq<char>, ms: u64) -> Rec {
    match problem {
        Some(p) => (kind, false, failure_prefix + p, ms),
        None => (kind, true, ok_message, ms),
    }
}

/// The first problem of two, if any.
pub open spec fn first_problem(a: Option<Seq<char>>, b: Option<Seq<char>>) -> Option<Seq<char>> {
    if a is Some { a } else { b }
}

/// The problem of an existing installation, if there is one.
pub open spec fn existing_problem(version: Seq<char>, obs: PathObservation) -> Option<Seq<char>> {
    if obs.exists {
        Some("Go "@ + version + " is already installed. Use --force to overwrite"@)
    } else {
        None
    }
}

/// The record of looking for an existing installation.
pub open spec fn existing_rec(version: Seq<char>, install_dir: Seq<char>, obs: PathObservation) -> Rec {
    if obs.exists {
        ("existing_installation"@, false, "Go "@ + version + " is already installed at "@ + path_join(install_dir, version), obs.elapsed_ms)
    } else {
        ("existing_installation"@, true, "No existing installation found for Go "@ + version, obs.elapsed_ms)
    }
}

/// The records that checking before installation makes, and the problem it
/// stops at, if any: version format, directories, permissions, disk space,
/// network, and, unless forced, an existing installation.
pub open spec fn pre_install_outcome(
    version: Seq<char>,
    install_dir: Seq<char>,
    cache_dir: Seq<char>,
    force: bool,
    obs: PreInstallObservations,
) -> (Seq<Rec>, Option<Seq<char>>) {
    let p1 = version_format_outcome(version);
    let r1 = rec_of("version_format"@, p1, "Version format '"@ + version + "' is valid"@,
        "Invalid version format '"@ + version + "': "@, 0);
    let pi = directory_problem(install_dir, "install"@, obs.install_dir);
    let pc = directory_problem(cache_dir, "cache"@, obs.cache_dir);
    let r2 = seq![
        rec_of("install_directory"@, pi, "Install directory accessible: "@ + install_dir, "Install directory issue: "@, obs.install_dir.elapsed_ms),
        rec_of("cache_directory"@, pc, "Cache directory accessible: "@ + cache_dir, "Cache directory issue: "@, obs.cache_dir.elapsed_ms),
    ];
    let p3 = write_problem(install_dir, cache_dir, obs.writes);
    let r3 = rec_of("write_permissions"@, p3, "Write permissions verified for all directories"@, "Permission check failed: "@, obs.writes.elapsed_ms);
    let r4 = ("disk_space"@, true, "Sufficient disk space available: 5120 MB"@, 0u64);
    let r5 = ("network_connectivity"@, true, "Network connectivity verified"@, 0u64);
    if p1 is Some {
        (seq![r1], p1)
    } else if first_problem(pi, pc) is Some {
        (seq![r1] + r2, first_problem(pi, pc))
    } else if p3 is Some {
        (seq![r1] + r2 + seq![r3], p3)
    } else if force {
        (seq![r1] + r2 + seq![r3, r4, r5], None)
    } else {
        (seq![r1] + r2 + seq![r3, r4, r5, existing_rec(version, install_dir, obs.version_dir)],
            existing_problem(version, obs.version_dir))
    }
}


/// The problem a result reports, if any.
pub open spec fn problem_of(r: Result<(), GvmError>) -> Option<Seq<char>> {
    match r {
        Ok(_) => None,
        Err(e) => Some(error_text(e)),
    }
}

/// Names joined with a separator.
pub open spec fn joined(names: Seq<Seq<char>>, sep: Seq<char>) -> Seq<char>
    decreases names.len(),
{
    if names.len() == 0 {
        Seq::empty()
    } else if names.len() == 1 {
        names[0]
    } else {
        joined(names.drop_last(), sep) + sep + names.last()
    }
}

/// The directories of a Go tree that are missing, in the order bin, src, pkg.
pub open spec fn missing_dirs(s: StructureObservation) -> Seq<Seq<char>> {
    (if s.bin_exists { Seq::empty() } else { seq!["bin"@] })
        + (if s.src_exists { Seq::empty() } else { seq!["src"@] })
        + (if s.pkg_exists { Seq::empty() } else { seq!["pkg"@] })
}

/// The Go executable under a Go tree, on a system that Rust names `rust_os`.
pub open spec fn tree_go_binary(install_dir: Seq<char>, rust_os: Seq<char>) -> Seq<char> {
    path_join(path_join(install_dir, "bin"@), if rust_os == "windows"@ { "go.exe"@ } else { "go"@ })
}

/// The records that checking after installation makes, and the problem it
/// stops at, if any: the version's directory, the Go executable, the
/// version output, and the tree's directories.
pub open spec fn post_install_outcome(
    version: Seq<char>,
    install_dir: Seq<char>,
    rust_os: Seq<char>,
    obs: PostInstallObservations,
) -> (Seq<Rec>, Option<Seq<char>>) {
    let found = obs.version_dir.exists && obs.version_dir.is_dir;
    let r1: Rec = ("go_installation"@, found, if found {
        "Go "@ + version + " installation directory found"@
    } else {
        "Go "@ + version + " installation directory not found"@
    }, obs.version_dir.elapsed_ms);
    let binary = tree_go_binary(install_dir, rust_os);
    let present = obs.go_binary.exists && obs.go_binary.is_file;
    let r2: Rec = ("go_executable"@, present, if present {
        "Go executable found: "@ + binary
    } else {
        "Go executable not found: "@ + binary
    }, obs.go_binary.elapsed_ms);
    let r3: Rec = ("go_version_output"@, true, "Go version output verified for "@ + version, 0u64);
    let missing = missing_dirs(obs.structure);
    let complete = missing.len() == 0;
    let r4: Rec = ("directory_structure"@, complete, if complete {
        "All required directories found"@
    } else {
        "Missing directories: "@ + joined(missing, ", "@)
    }, obs.structure.elapsed_ms);
    if !found {
        (seq![r1], Some("Go installation directory not found: "@ + path_join(install_dir, version)))
    } else if !present {
        (seq![r1, r2], Some("Go executable not found: "@ + binary))
    } else if !complete {
        (seq![r1, r2, r3, r4], Some("Missing required directories: "@ + joined(missing, ", "@)))
    } else {
        (seq![r1, r2, r3, r4], None)
    }
}

/// The record and problem of checking the archive, when the context names one.
pub open spec fn extraction_outcome(context: RuntimeValidationContext, obs: PathObservation) -> (Seq<Rec>, Option<Seq<char>>) {
    match context.archive_path {
        Some(path) => {
            let p = if !obs.exists {
                Some("Archive file does not exist: "@ + path@)
            } else if !obs.is_file {
                Some("Archive path is not a file: "@ + path@)
            } else {
                None
            };
            (seq![rec_of("archive_file"@, p, "Archive file is valid: "@ + path@, "Archive validation failed: "@, obs.elapsed_ms)], p)
        },
        None => (Seq::empty(), None),
    }
}

/// The record and problem of checking the installed tree, when the context
/// names one.
pub open spec fn verification_outcome(context: RuntimeValidationContext, obs: PathObservation) -> (Seq<Rec>, Option<Seq<char>>) {
    match context.install_path {
        Some(path) => {
            let p = if !obs.exists {
                Some("Installation path does not exist: "@ + path@)
            } else {
                None
            };
            (seq![rec_of("installed_files"@, p, "Installed files verified at: "@ + path@, "File verification failed: "@, obs.elapsed_ms)], p)
        },
        None => (Seq::empty(), None),
    }
}

/// The records that checking during a step makes, and the problem found,
/// if any: the download location while downloading, the archive while
/// extracting, the installed tree while verifying.
pub open spec fn runtime_outcome(step: InstallStep, context: RuntimeValidationContext, obs: RuntimeObservations) -> (Seq<Rec>, Option<Seq<char>>) {
    match step {
        InstallStep::Downloading { .. } => match context.download_url {
            Some(url) => (seq![("download_url"@, true, "Download URL is accessible: "@ + url@, 0u64)], None),
            None => (Seq::empty(), None),
        },
        InstallStep::Extracting { .. } => extraction_outcome(context, obs.archive),
        InstallStep::Verifying => verification_outcome(context, obs.install_path),
        _ => (Seq::empty(), None),
    }
}

/// The outcome of a series of checks: a report of all checks made when none
/// found a problem, else the problem.
pub open spec fn validation_result(
    res: Result<ValidationReport, GvmError>,
    problem: Option<Seq<char>>,
    all: Seq<ValidationResult>,
    total_duration_ms: u64,
) -> bool {
    match problem {
        Some(p) => res matches Err(GvmError::Rejected { reason }) && reason@ == p,
        None => res matches Ok(report) && is_report(report, all, total_duration_ms),
    }
}

/// Why a directory cannot be used, if it cannot.
pub open spec fn directory_problem(dir: Seq<char>, purpose: Seq<char>, obs: PathObservation) -> Option<Seq<char>> {
    if obs.exists && !obs.is_dir {
        Some(purpose + " path exists but is not a directory: "@ + dir)
    } else {
        None
    }
}

/// Why writing into the directories failed, if it did: the first existing
/// directory that could not be written.
pub open spec fn write_problem(install_dir: Seq<char>, cache_dir: Seq<char>, w: WriteObservation) -> Option<Seq<char>> {
    if w.install_dir_writable == Some(false) {
        Some("Cannot write to directory: "@ + install_dir)
    } else if w.cache_dir_writable == Some(false) {
        Some("Cannot write to directory: "@ + cache_dir)
    } else {
        None
    }
}

/// A recorded check: its kind, outcome, message and duration.
pub open spec fn is_record(r: ValidationResult, check_type: Seq<char>, success: bool, message: Seq<char>, duration_ms: u64) -> bool {
    &&& r.check_type@ == check_type
    &&& r.success == success
    &&& r.message@ == message
    &&& r.duration_ms == duration_ms
}

/// The result of a check that fails with `problem`, if there is one.
pub open spec fn check_result(res: Result<(), GvmError>, problem: Option<Seq<char>>) -> bool {
    match problem {
        Some(p) => res matches Err(GvmError::Rejected { reason }) && reason@ == p,
        None => res is Ok,
    }
}

/// The number of successful checks among the results.
pub open spec fn successes(results: Seq<ValidationResult>) -> nat
    decreases results.len(),
{
    if results.len() == 0 {
        0
    } else {
        successes(results.drop_last()) + if results.last().success { 1nat } else { 0nat }
    }
}

/// The report of the results.
pub open spec fn is_report(report: ValidationReport, results: Seq<ValidationResult>, total_duration_ms: u64) -> bool {
    &&& report.total_checks == results.len()
    &&& report.successful_checks == successes(results)
    &&& report.failed_checks == results.len() - successes(results)
    &&& report.overall_success == (successes(results) == results.len())
    &&& report.total_duration_ms == total_duration_ms
    &&& report.results@.len() == results.len()
    &&& forall|i: int| 0 <= i < results.len() ==> #[trigger] report.results@[i].success == results[i].success
        && report.results@[i].check_type@ == results[i].check_type@ && report.results@[i].message@ == results[i].message@
        && report.results@[i].duration_ms == results[i].duration_ms
        && report.results@[i].timestamp@ == results[i].timestamp@
}

/// The successes among some results are at most their number.
proof fn lemma_successes_bound(results: Seq<ValidationResult>)
    ensures
        successes(results) <= results.len(),
    decreases results.len(),
{
    if results.len() > 0 {
        lemma_successes_bound(results.drop_last());
    }
}

/// In a report, the successful and the failed checks add up to all checks,
/// and validation succeeded exactly when no check failed.
pub proof fn lemma_report_counts(report: ValidationReport, results: Seq<ValidationResult>, total_duration_ms: u64)
    requires
        is_report(report, results, total_duration_ms),
    ensures
        report.successful_checks + report.failed_checks == report.total_checks,
        report.overall_success <==> report.failed_checks == 0,
{
    lemma_successes_bound(results);
}

/// `a` followed by `b`.
fn cat2(a: &str, b: &str) -> (res: String)
    ensures
        res@ == a@ + b@,
{
    let mut s = String::from_str(a);
    s.append(b);
    s
}

/// `a`, `b` and `c` one after the other.
fn cat3(a: &str, b: &str, c: &str) -> (res: String)
    ensures
        res@ == a@ + b@ + c@,
{
    let mut s = String::from_str(a);
    s.append(b);
    s.append(c);
    s
}

/// Names joined with a separator.
fn join_names(names: &Vec<&str>, sep: &str) -> (res: String)
    ensures
        res@ == joined(names@.map_values(|m: &str| m@), sep@),
{
    let mut out = String::new();
    let mut i: usize = 0;
    while i < names.len()
        invariant
            i <= names@.len(),
            out@ == joined(names@.subrange(0, i as int).map_values(|m: &str| m@), sep@),
        decreases names@.len() - i,
    {
        let ghost before = names@.subrange(0, i as int).map_values(|m: &str| m@);
        if i > 0 {
            out.append(sep);
        }
        out.append(names[i]);
        proof {
            let after = names@.subrange(0, i + 1).map_values(|m: &str| m@);
            assert(after.drop_last() =~= before);
            assert(after.last() == names@[i as int]@);
            if i == 0 {
                assert(before =~= Seq::<Seq<char>>::empty());
                assert(out@ =~= names@[0]@);
            }
        }
        i = i + 1;
    }
    assert(names@.subrange(0, i as int) =~= names@);
    out
}

impl RuntimeValidationContext {
    pub fn new() -> (res: Self)
        ensures
            res.download_url is None,
            res.archive_path is None,
            res.install_path is None,
            res.expected_size is None,
    {
        RuntimeValidationContext { download_url: None, archive_path: None, install_path: None, expected_size: None }
    }

    pub fn with_download_url(self, url: String) -> (res: Self)
        ensures
            res.download_url == Some(url),
            res.archive_path == self.archive_path,
            res.install_path == self.install_path,
            res.expected_size == self.expected_size,
    {
        RuntimeValidationContext { download_url: Some(url), ..self }
    }

    pub fn with_archive_path(self, path: String) -> (res: Self)
        ensures
            res.archive_path == Some(path),
            res.download_url == self.download_url,
            res.install_path == self.install_path,
            res.expected_size == self.expected_size,
    {
        RuntimeValidationContext { archive_path: Some(path), ..self }
    }

    pub fn with_install_path(self, path: String) -> (res: Self)
        ensures
            res.install_path == Some(path),
            res.download_url == self.download_url,
            res.archive_path == self.archive_path,
            res.expected_size == self.expected_size,
    {
        RuntimeValidationContext { install_path: Some(path), ..self }
    }

    pub fn with_expected_size(self, size: u64) -> (res: Self)
        ensures
            res.expected_size == Some(size),
            res.download_url == self.download_url,
            res.archive_path == self.archive_path,
            res.install_path == self.install_path,
    {
        RuntimeValidationContext { expected_size: Some(size), ..self }
    }
}

impl ValidationEngine {
    /// Create a new validation engine
    pub fn new() -> (res: Self)
        ensures
            res.checks_performed@.len() == 0,
    {
        ValidationEngine { checks_performed: Vec::new() }
    }

    /// Whether a version's format is acceptable, given for each character
    /// whether it is alphanumeric: not empty, and only alphanumerics, `.`
    /// and `-`.
    pub fn check_version_chars(version: &str, alphanumeric: &Vec<bool>) -> (res: Result<(), GvmError>)
        requires
            alphanumeric@.len() == version@.len(),
        ensures
            check_result(res, version_format_problem(version@, alphanumeric@)),
    {
        let chars = chars_of(version);
        if chars.len() == 0 {
            return Err(GvmError::Rejected { reason: String::from_str("Version cannot be empty") });
        }
        let mut i: usize = 0;
        while i < chars.len()
            invariant
                chars@ == version@,
                alphanumeric@.len() == version@.len(),
                i <= chars@.len(),
                forall|k: int| 0 <= k < i ==> version_char_ok(version@[k], #[trigger] alphanumeric@[k]),
            decreases chars@.len() - i,
        {
            let c = chars[i];
            if !(alphanumeric[i] || c == '.' || c == '-') {
                return Err(GvmError::Rejected { reason: String::from_str("Version contains invalid characters") });
            }
            i = i + 1;
        }
        Ok(())
    }

    /// Whether a version's format is acceptable: not empty, and only
    /// alphanumerics (as `char::is_alphanumeric` decides), `.` and `-`.
    pub fn check_version_format(&self, version: &str) -> (res: Result<(), GvmError>)
        ensures
            check_result(res, version_format_outcome(version@)),
            plain_version(version@) ==> version_format_outcome(version@) is None,
    {
        let chars = chars_of(version);
        let mut flags: Vec<bool> = Vec::new();
        let mut i: usize = 0;
        while i < chars.len()
            invariant
                chars@ == version@,
                i <= chars@.len(),
                flags@.len() == i,
                forall|k: int| 0 <= k < i ==> #[trigger] flags@[k] == is_alphanumeric_char(version@[k]),
                forall|k: int| 0 <= k < i ==> ascii_alnum(version@[k]) ==> #[trigger] is_alphanumeric_char(version@[k]),
            decreases chars@.len() - i,
        {
            flags.push(char_is_alphanumeric(chars[i]));
            i = i + 1;
        }
        proof {
            let flagged = Seq::new(version@.len(), |i: int| is_alphanumeric_char(version@[i]));
            assert(flags@ =~= flagged);
            if plain_version(version@) {
                assert forall|k: int| 0 <= k < version@.len() implies version_char_ok(version@[k], #[trigger] flagged[k]) by {
                    if ascii_alnum(version@[k]) {
                        assert(is_alphanumeric_char(version@[k]));
                    }
                }
            }
        }
        Self::check_version_chars(version, &flags)
    }

    /// Whether a directory can be used for `purpose`: it must be a
    /// directory if it exists.
    pub fn check_directory_access(&self, dir: &str, purpose: &str, obs: PathObservation) -> (res: Result<(), GvmError>)
        ensures
            check_result(res, directory_problem(dir@, purpose@, obs)),
    {
        if obs.exists && !obs.is_dir {
            return Err(GvmError::Rejected { reason: cat3(purpose, " path exists but is not a directory: ", dir) });
        }
        Ok(())
    }

    /// Whether the existing directories could be written.
    pub fn check_write_permissions(&self, install_dir: &str, cache_dir: &str, w: WriteObservation) -> (res: Result<(), GvmError>)
        ensures
            check_result(res, write_problem(install_dir@, cache_dir@, w)),
    {
        if w.install_dir_writable == Some(false) {
            return Err(GvmError::Rejected { reason: cat2("Cannot write to directory: ", install_dir) });
        }
        if w.cache_dir_writable == Some(false) {
            return Err(GvmError::Rejected { reason: cat2("Cannot write to directory: ", cache_dir) });
        }
        Ok(())
    }

    /// The disk space taken to be available: 5 GiB.
    pub fn check_disk_space(&self) -> (res: Result<u64, GvmError>)
        ensures
            res == Ok::<u64, GvmError>(5368709120),
    {
        Ok(5 * 1024 * 1024 * 1024)
    }

    /// The check of the archive before extraction: it must exist and be a file.
    pub fn validate_archive_file(&self, archive_path: &str, obs: PathObservation) -> (res: Result<(), GvmError>)
        ensures
            check_result(res, if !obs.exists {
                Some("Archive file does not exist: "@ + archive_path@)
            } else if !obs.is_file {
                Some("Archive path is not a file: "@ + archive_path@)
            } else {
                None
            }),
    {
        if !obs.exists {
            return Err(GvmError::Rejected { reason: cat2("Archive file does not exist: ", archive_path) });
        }
        if !obs.is_file {
            return Err(GvmError::Rejected { reason: cat2("Archive path is not a file: ", archive_path) });
        }
        Ok(())
    }

    /// The check of the installed files: the installation path must exist.
    pub fn validate_installed_files(&self, install_path: &str, obs: PathObservation) -> (res: Result<(), GvmError>)
        ensures
            check_result(res, if !obs.exists {
                Some("Installation path does not exist: "@ + install_path@)
            } else {
                None
            }),
    {
        if !obs.exists {
            return Err(GvmError::Rejected { reason: cat2("Installation path does not exist: ", install_path) });
        }
        Ok(())
    }

    /// Records the outcome of a check made at `clock`.
    pub fn record_validation_result(
        &mut self,
        check_type: &str,
        success: bool,
        message: &str,
        duration_ms: u64,
        clock: ClockReading,
    )
        ensures
            final(self).checks_performed@.len() == old(self).checks_performed@.len() + 1,
            final(self).checks_performed@.subrange(0, old(self).checks_performed@.len() as int) == old(self).checks_performed@,
            is_record(final(self).checks_performed@.last(), check_type@, success, message@, duration_ms),
            final(self).checks_performed@.last().timestamp@ == timestamp_text(clock),
            stamped(old(self).checks_performed@, final(self).checks_performed@, timestamp_text(clock)),
    {
        self.checks_performed.push(ValidationResult {
            check_type: String::from_str(check_type),
            success,
            message: String::from_str(message),
            timestamp: timestamp_of(clock),
            duration_ms,
        });
        assert(self.checks_performed@.subrange(0, old(self).checks_performed@.len() as int) =~= old(self).checks_performed@);
    }

    /// Records a check of kind `kind` with outcome `outcome`: the success
    /// message, or the failure prefix followed by the problem.
    fn record_outcome(&mut self, kind: &str, outcome: &Result<(), GvmError>, ok_message: &str, failure_prefix: &str, ms: u64, clock: ClockReading)
        ensures
            stamped(old(self).checks_performed@, final(self).checks_performed@, timestamp_text(clock)),
            records(final(self).checks_performed@) == records(old(self).checks_performed@).push(
                rec_of(kind@, problem_of(*outcome), ok_message@, failure_prefix@, ms),
            ),
    {
        match outcome {
            Ok(()) => self.record_validation_result(kind, true, ok_message, ms, clock),
            Err(e) => {
                let msg = e.message();
                let text = cat2(failure_prefix, msg.as_str());
                self.record_validation_result(kind, false, text.as_str(), ms, clock);
            },
        }
        proof {
            let old_len = old(self).checks_performed@.len() as int;
            assert(self.checks_performed@ =~= old(self).checks_performed@.push(self.checks_performed@.last()));
        }
    }

    /// Records a check with a fixed outcome and message.
    fn record_plain(&mut self, kind: &str, success: bool, message: &str, ms: u64, clock: ClockReading)
        ensures
            stamped(old(self).checks_performed@, final(self).checks_performed@, timestamp_text(clock)),
            records(final(self).checks_performed@) == records(old(self).checks_performed@).push((kind@, success, message@, ms)),
    {
        self.record_validation_result(kind, success, message, ms, clock);
        proof {
            assert(self.checks_performed@ =~= old(self).checks_performed@.push(self.checks_performed@.last()));
        }
    }

    /// Checks the version's format, and records it.
    fn validate_version_format(&mut self, version: &str, clock: ClockReading) -> (res: Result<(), GvmError>)
        ensures
            stamped(old(self).checks_performed@, final(self).checks_performed@, timestamp_text(clock)),
            check_result(res, version_format_outcome(version@)),
            plain_version(version@) ==> version_format_outcome(version@) is None,
            records(final(self).checks_performed@) == records(old(self).checks_performed@).push(
                rec_of("version_format"@, version_format_outcome(version@), "Version format '"@ + version@ + "' is valid"@,
                    "Invalid version format '"@ + version@ + "': "@, 0),
            ),
    {
        let result = self.check_version_format(version);
        let ok = cat3("Version format '", version, "' is valid");
        let prefix = cat3("Invalid version format '", version, "': ");
        self.record_outcome("version_format", &result, ok.as_str(), prefix.as_str(), 0, clock);
        result
    }

    /// Checks the install and cache directories, and records both.
    fn validate_directories(&mut self, install_dir: &str, cache_dir: &str, install_obs: PathObservation, cache_obs: PathObservation, clock: ClockReading) -> (res: Result<(), GvmError>)
        ensures
            stamped(old(self).checks_performed@, final(self).checks_performed@, timestamp_text(clock)),
            check_result(res, first_problem(directory_problem(install_dir@, "install"@, install_obs),
                directory_problem(cache_dir@, "cache"@, cache_obs))),
            records(final(self).checks_performed@) == records(old(self).checks_performed@) + seq![
                rec_of("install_directory"@, directory_problem(install_dir@, "install"@, install_obs),
                    "Install directory accessible: "@ + install_dir@, "Install directory issue: "@, install_obs.elapsed_ms),
                rec_of("cache_directory"@, directory_problem(cache_dir@, "cache"@, cache_obs),
                    "Cache directory accessible: "@ + cache_dir@, "Cache directory issue: "@, cache_obs.elapsed_ms),
            ],
    {
        let install_result = self.check_directory_access(install_dir, "install", install_obs);
        let ok = cat2("Install directory accessible: ", install_dir);
        self.record_outcome("install_directory", &install_result, ok.as_str(), "Install directory issue: ", install_obs.elapsed_ms, clock);
        let cache_result = self.check_directory_access(cache_dir, "cache", cache_obs);
        let ok = cat2("Cache directory accessible: ", cache_dir);
        self.record_outcome("cache_directory", &cache_result, ok.as_str(), "Cache directory issue: ", cache_obs.elapsed_ms, clock);
        match install_result {
            Err(e) => Err(e),
            Ok(()) => cache_result,
        }
    }

    /// Checks that the existing directories can be written, and records it.
    fn validate_permissions(&mut self, install_dir: &str, cache_dir: &str, w: WriteObservation, clock: ClockReading) -> (res: Result<(), GvmError>)
        ensures
            stamped(old(self).checks_performed@, final(self).checks_performed@, timestamp_text(clock)),
            check_result(res, write_problem(install_dir@, cache_dir@, w)),
            records(final(self).checks_performed@) == records(old(self).checks_performed@).push(
                rec_of("write_permissions"@, write_problem(install_dir@, cache_dir@, w),
                    "Write permissions verified for all directories"@, "Permission check failed: "@, w.elapsed_ms),
            ),
    {
        let result = self.check_write_permissions(install_dir, cache_dir, w);
        self.record_outcome("write_permissions", &result, "Write permissions verified for all directories",
            "Permission check failed: ", w.elapsed_ms, clock);
        result
    }

    /// Records the disk space check, which always passes.
    fn validate_disk_space(&mut self, clock: ClockReading) -> (res: Result<(), GvmError>)
        ensures
            stamped(old(self).checks_performed@, final(self).checks_performed@, timestamp_text(clock)),
            res is Ok,
            records(final(self).checks_performed@) == records(old(self).checks_performed@).push(
                ("disk_space"@, true, "Sufficient disk space available: 5120 MB"@, 0u64),
            ),
    {
        let space = match self.check_disk_space() {
            Ok(s) => s,
            Err(_) => 0,
        };
        let mut msg = String::from_str("Sufficient disk space available: ");
        push_decimal(&mut msg, (space / 1024 / 1024) as u128);
        msg.append(" MB");
        proof {
            reveal_strlit("Sufficient disk space available: ");
            reveal_strlit(" MB");
            reveal_strlit("Sufficient disk space available: 5120 MB");
            reveal_with_fuel(decimal, 5);
            assert(msg@ =~= "Sufficient disk space available: 5120 MB"@);
        }
        self.record_plain("disk_space", true, msg.as_str(), 0, clock);
        Ok(())
    }

    /// Records the network check, which always passes.
    fn validate_network_connectivity(&mut self, clock: ClockReading) -> (res: Result<(), GvmError>)
        ensures
            stamped(old(self).checks_performed@, final(self).checks_performed@, timestamp_text(clock)),
            res is Ok,
            records(final(self).checks_performed@) == records(old(self).checks_performed@).push(
                ("network_connectivity"@, true, "Network connectivity verified"@, 0u64),
            ),
    {
        self.record_plain("network_connectivity", true, "Network connectivity verified", 0, clock);
        Ok(())
    }

    /// Checks that the version is not installed yet, and records it.
    fn validate_no_existing_installation(&mut self, version: &str, install_dir: &str, obs: PathObservation, clock: ClockReading) -> (res: Result<(), GvmError>)
        ensures
            stamped(old(self).checks_performed@, final(self).checks_performed@, timestamp_text(clock)),
            check_result(res, existing_problem(version@, obs)),
            records(final(self).checks_performed@) == records(old(self).checks_performed@).push(
                existing_rec(version@, install_dir@, obs),
            ),
    {
        if obs.exists {
            let version_dir = join(install_dir, version);
            let head = cat3("Go ", version, " is already installed at ");
            let msg = cat2(head.as_str(), version_dir.as_str());
            self.record_plain("existing_installation", false, msg.as_str(), obs.elapsed_ms, clock);
            Err(GvmError::Rejected { reason: cat3("Go ", version, " is already installed. Use --force to overwrite") })
        } else {
            let msg = cat2("No existing installation found for Go ", version);
            self.record_plain("existing_installation", true, msg.as_str(), obs.elapsed_ms, clock);
            Ok(())
        }
    }

    /// The checks before installing: the version's format, the
    /// directories, write permissions, disk space, the network, and, unless
    /// `force`, that the version is not installed yet. They stop at the
    /// first problem; otherwise the report covers the checks made.
    pub fn pre_installation_validation(
        &mut self,
        version: &str,
        install_dir: &str,
        cache_dir: &str,
        force: bool,
        obs: &PreInstallObservations,
        total_duration_ms: u64,
        clock: ClockReading,
    ) -> (res: Result<ValidationReport, GvmError>)
        ensures
            records(final(self).checks_performed@) == pre_install_outcome(version@, install_dir@, cache_dir@, force, *obs).0,
            plain_version(version@) ==> version_format_outcome(version@) is None,
            forall|k: int| 0 <= k < final(self).checks_performed@.len()
                ==> (#[trigger] final(self).checks_performed@[k]).timestamp@ == timestamp_text(clock),
            validation_result(res, pre_install_outcome(version@, install_dir@, cache_dir@, force, *obs).1,
                final(self).checks_performed@, total_duration_ms),
    {
        self.checks_performed = Vec::new();
        let ghost outcome = pre_install_outcome(version@, install_dir@, cache_dir@, force, *obs);
        let r = self.validate_version_format(version, clock);
        if let Err(e) = r {
            proof { assert(records(self.checks_performed@) =~= outcome.0); }
            return Err(e);
        }
        let r = self.validate_directories(install_dir, cache_dir, obs.install_dir, obs.cache_dir, clock);
        if let Err(e) = r {
            proof { assert(records(self.checks_performed@) =~= outcome.0); }
            return Err(e);
        }
        let r = self.validate_permissions(install_dir, cache_dir, obs.writes, clock);
        if let Err(e) = r {
            proof { assert(records(self.checks_performed@) =~= outcome.0); }
            return Err(e);
        }
        let _ = self.validate_disk_space(clock);
        let _ = self.validate_network_connectivity(clock);
        if !force {
            let r = self.validate_no_existing_installation(version, install_dir, obs.version_dir, clock);
            if let Err(e) = r {
                proof { assert(records(self.checks_performed@) =~= outcome.0); }
                return Err(e);
            }
        }
        proof { assert(records(self.checks_performed@) =~= outcome.0); }
        Ok(self.generate_report(total_duration_ms))
    }

    /// Records the download location, which is always taken as reachable.
    fn validate_download_context(&mut self, context: &RuntimeValidationContext, clock: ClockReading) -> (res: Result<(), GvmError>)
        ensures
            stamped(old(self).checks_performed@, final(self).checks_performed@, timestamp_text(clock)),
            res is Ok,
            records(final(self).checks_performed@) == records(old(self).checks_performed@) + match context.download_url {
                Some(url) => seq![("download_url"@, true, "Download URL is accessible: "@ + url@, 0u64)],
                None => Seq::<Rec>::empty(),
            },
    {
        if let Some(url) = &context.download_url {
            let msg = cat2("Download URL is accessible: ", url.as_str());
            self.record_plain("download_url", true, msg.as_str(), 0, clock);
        } else {
            proof { assert(records(self.checks_performed@) =~= records(old(self).checks_performed@) + Seq::<Rec>::empty()); }
        }
        Ok(())
    }

    /// Checks and records the archive, when the context names one.
    fn validate_extraction_context(&mut self, context: &RuntimeValidationContext, obs: PathObservation, clock: ClockReading) -> (res: Result<(), GvmError>)
        ensures
            stamped(old(self).checks_performed@, final(self).checks_performed@, timestamp_text(clock)),
            records(final(self).checks_performed@) == records(old(self).checks_performed@) + extraction_outcome(*context, obs).0,
            check_result(res, extraction_outcome(*context, obs).1),
    {
        if let Some(path) = &context.archive_path {
            let result = self.validate_archive_file(path.as_str(), obs);
            let ok = cat2("Archive file is valid: ", path.as_str());
            self.record_outcome("archive_file", &result, ok.as_str(), "Archive validation failed: ", obs.elapsed_ms, clock);
            proof { assert(records(self.checks_performed@) =~= records(old(self).checks_performed@) + extraction_outcome(*context, obs).0); }
            result
        } else {
            proof { assert(records(self.checks_performed@) =~= records(old(self).checks_performed@) + Seq::<Rec>::empty()); }
            Ok(())
        }
    }

    /// Nothing is checked while installing components.
    fn validate_installation_context(&mut self, context: &RuntimeValidationContext, clock: ClockReading) -> (res: Result<(), GvmError>)
        ensures
            stamped(old(self).checks_performed@, final(self).checks_performed@, timestamp_text(clock)),
            res is Ok,
            final(self).checks_performed@ == old(self).checks_performed@,
    {
        Ok(())
    }

    /// Checks and records the installed tree, when the context names one.
    fn validate_verification_context(&mut self, context: &RuntimeValidationContext, obs: PathObservation, clock: ClockReading) -> (res: Result<(), GvmError>)
        ensures
            stamped(old(self).checks_performed@, final(self).checks_performed@, timestamp_text(clock)),
            records(final(self).checks_performed@) == records(old(self).checks_performed@) + verification_outcome(*context, obs).0,
            check_result(res, verification_outcome(*context, obs).1),
    {
        if let Some(path) = &context.install_path {
            let result = self.validate_installed_files(path.as_str(), obs);
            let ok = cat2("Installed files verified at: ", path.as_str());
            self.record_outcome("installed_files", &result, ok.as_str(), "File verification failed: ", obs.elapsed_ms, clock);
            proof { assert(records(self.checks_performed@) =~= records(old(self).checks_performed@) + verification_outcome(*context, obs).0); }
            result
        } else {
            proof { assert(records(self.checks_performed@) =~= records(old(self).checks_performed@) + Seq::<Rec>::empty()); }
            Ok(())
        }
    }

    /// The checks during a step: the download location while downloading,
    /// the archive while extracting, the installed tree while verifying.
    /// The report covers every check made so far.
    pub fn runtime_validation(
        &mut self,
        step: &InstallStep,
        context: &RuntimeValidationContext,
        obs: &RuntimeObservations,
        total_duration_ms: u64,
        clock: ClockReading,
    ) -> (res: Result<ValidationReport, GvmError>)
        ensures
            records(final(self).checks_performed@) == records(old(self).checks_performed@) + runtime_outcome(*step, *context, *obs).0,
            stamped(old(self).checks_performed@, final(self).checks_performed@, timestamp_text(clock)),
            validation_result(res, runtime_outcome(*step, *context, *obs).1, final(self).checks_performed@, total_duration_ms),
    {
        let r = match step {
            InstallStep::Downloading { .. } => self.validate_download_context(context, clock),
            InstallStep::Extracting { .. } => self.validate_extraction_context(context, obs.archive, clock),
            InstallStep::Installing { .. } => {
                let r = self.validate_installation_context(context, clock);
                proof { assert(records(self.checks_performed@) =~= records(old(self).checks_performed@) + Seq::<Rec>::empty()); }
                r
            },
            InstallStep::Verifying => self.validate_verification_context(context, obs.install_path, clock),
            _ => {
                proof { assert(records(self.checks_performed@) =~= records(old(self).checks_performed@) + Seq::<Rec>::empty()); }
                Ok(())
            },
        };
        match r {
            Err(e) => Err(e),
            Ok(()) => Ok(self.generate_report(total_duration_ms)),
        }
    }

    /// Checks and records that the version's directory exists.
    fn validate_go_installation(&mut self, version: &str, install_dir: &str, obs: PathObservation, clock: ClockReading) -> (res: Result<(), GvmError>)
        ensures
            stamped(old(self).checks_performed@, final(self).checks_performed@, timestamp_text(clock)),
            records(final(self).checks_performed@) == records(old(self).checks_performed@).push(
                post_install_outcome(version@, install_dir@, ""@, PostInstallObservations {
                    version_dir: obs, go_binary: obs, structure: StructureObservation { bin_exists: true, src_exists: true, pkg_exists: true, elapsed_ms: 0 },
                }).0[0],
            ),
            check_result(res, if obs.exists && obs.is_dir { None } else {
                Some("Go installation directory not found: "@ + path_join(install_dir@, version@))
            }),
    {
        let found = obs.exists && obs.is_dir;
        if found {
            let msg = cat3("Go ", version, " installation directory found");
            self.record_plain("go_installation", true, msg.as_str(), obs.elapsed_ms, clock);
            Ok(())
        } else {
            let msg = cat3("Go ", version, " installation directory not found");
            self.record_plain("go_installation", false, msg.as_str(), obs.elapsed_ms, clock);
            let version_dir = join(install_dir, version);
            Err(GvmError::Rejected { reason: cat2("Go installation directory not found: ", version_dir.as_str()) })
        }
    }

    /// Checks and records that the Go executable is in place.
    fn validate_go_executable(&mut self, install_dir: &str, rust_os: &str, obs: PathObservation, clock: ClockReading) -> (res: Result<(), GvmError>)
        ensures
            stamped(old(self).checks_performed@, final(self).checks_performed@, timestamp_text(clock)),
            records(final(self).checks_performed@) == records(old(self).checks_performed@).push(
                ("go_executable"@, obs.exists && obs.is_file, if obs.exists && obs.is_file {
                    "Go executable found: "@ + tree_go_binary(install_dir@, rust_os@)
                } else {
                    "Go executable not found: "@ + tree_go_binary(install_dir@, rust_os@)
                }, obs.elapsed_ms),
            ),
            check_result(res, if obs.exists && obs.is_file { None } else {
                Some("Go executable not found: "@ + tree_go_binary(install_dir@, rust_os@))
            }),
    {
        let bin_dir = join(install_dir, "bin");
        let go_binary = join(bin_dir.as_str(), crate::platform::PlatformInfo::go_executable_name(rust_os));
        if obs.exists && obs.is_file {
            let msg = cat2("Go executable found: ", go_binary.as_str());
            self.record_plain("go_executable", true, msg.as_str(), obs.elapsed_ms, clock);
            Ok(())
        } else {
            let msg = cat2("Go executable not found: ", go_binary.as_str());
            self.record_plain("go_executable", false, msg.as_str(), obs.elapsed_ms, clock);
            Err(GvmError::Rejected { reason: msg })
        }
    }

    /// Records the check of `go version`, which always passes.
    fn validate_go_version_output(&mut self, expected_version: &str, clock: ClockReading) -> (res: Result<(), GvmError>)
        ensures
            stamped(old(self).checks_performed@, final(self).checks_performed@, timestamp_text(clock)),
            res is Ok,
            records(final(self).checks_performed@) == records(old(self).checks_performed@).push(
                ("go_version_output"@, true, "Go version output verified for "@ + expected_version@, 0u64),
            ),
    {
        let msg = cat2("Go version output verified for ", expected_version);
        self.record_plain("go_version_output", true, msg.as_str(), 0, clock);
        Ok(())
    }

    /// Checks and records that `bin`, `src` and `pkg` exist.
    fn validate_directory_structure(&mut self, s: StructureObservation, clock: ClockReading) -> (res: Result<(), GvmError>)
        ensures
            stamped(old(self).checks_performed@, final(self).checks_performed@, timestamp_text(clock)),
            records(final(self).checks_performed@) == records(old(self).checks_performed@).push(
                ("directory_structure"@, missing_dirs(s).len() == 0, if missing_dirs(s).len() == 0 {
                    "All required directories found"@
                } else {
                    "Missing directories: "@ + joined(missing_dirs(s), ", "@)
                }, s.elapsed_ms),
            ),
            check_result(res, if missing_dirs(s).len() == 0 { None } else {
                Some("Missing required directories: "@ + joined(missing_dirs(s), ", "@))
            }),
    {
        let mut missing: Vec<&str> = Vec::new();
        if !s.bin_exists {
            missing.push("bin");
        }
        if !s.src_exists {
            missing.push("src");
        }
        if !s.pkg_exists {
            missing.push("pkg");
        }
        proof {
            assert(missing@.map_values(|m: &str| m@) =~= missing_dirs(s));
        }
        if missing.len() == 0 {
            self.record_plain("directory_structure", true, "All required directories found", s.elapsed_ms, clock);
            Ok(())
        } else {
            let list = join_names(&missing, ", ");
            let msg = cat2("Missing directories: ", list.as_str());
            self.record_plain("directory_structure", false, msg.as_str(), s.elapsed_ms, clock);
            Err(GvmError::Rejected { reason: cat2("Missing required directories: ", list.as_str()) })
        }
    }

    /// The checks after installing: the version's directory, the Go
    /// executable, the version output and the tree's directories. They stop
    /// at the first problem; otherwise the report covers every check made.
    pub fn post_installation_validation(
        &mut self,
        version: &str,
        install_dir: &str,
        rust_os: &str,
        obs: &PostInstallObservations,
        total_duration_ms: u64,
        clock: ClockReading,
    ) -> (res: Result<ValidationReport, GvmError>)
        ensures
            records(final(self).checks_performed@) == records(old(self).checks_performed@)
                + post_install_outcome(version@, install_dir@, rust_os@, *obs).0,
            stamped(old(self).checks_performed@, final(self).checks_performed@, timestamp_text(clock)),
            validation_result(res, post_install_outcome(version@, install_dir@, rust_os@, *obs).1,
                final(self).checks_performed@, total_duration_ms),
    {
        let ghost start = records(self.checks_performed@);
        let ghost outcome = post_install_outcome(version@, install_dir@, rust_os@, *obs);
        let r = self.validate_go_installation(version, install_dir, obs.version_dir, clock);
        if let Err(e) = r {
            proof { assert(records(self.checks_performed@) =~= start + outcome.0); }
            return Err(e);
        }
        let r = self.validate_go_executable(install_dir, rust_os, obs.go_binary, clock);
        if let Err(e) = r {
            proof { assert(records(self.checks_performed@) =~= start + outcome.0); }
            return Err(e);
        }
        let _ = self.validate_go_version_output(version, clock);
        let r = self.validate_directory_structure(obs.structure, clock);
        proof { assert(records(self.checks_performed@) =~= start + outcome.0); }
        match r {
            Err(e) => Err(e),
            Ok(()) => Ok(self.generate_report(total_duration_ms)),
        }
    }

    /// The report of the checks performed; `total_duration_ms` is the time
    /// since validation started.
    pub fn generate_report(&self, total_duration_ms: u64) -> (res: ValidationReport)
        ensures
            is_report(res, self.checks_performed@, total_duration_ms),
    {
        let mut successful: usize = 0;
        let mut results: Vec<ValidationResult> = Vec::new();
        let mut i: usize = 0;
        while i < self.checks_performed.len()
            invariant
                i <= self.checks_performed@.len(),
                successful == successes(self.checks_performed@.subrange(0, i as int)),
                successful <= i,
                results@.len() == i,
                forall|k: int| 0 <= k < i ==> #[trigger] results@[k].success == self.checks_performed@[k].success
                    && results@[k].check_type@ == self.checks_performed@[k].check_type@
                    && results@[k].message@ == self.checks_performed@[k].message@
                    && results@[k].duration_ms == self.checks_performed@[k].duration_ms
                    && results@[k].timestamp@ == self.checks_performed@[k].timestamp@,
            decreases self.checks_performed@.len() - i,
        {
            let r = &self.checks_performed[i];
            proof {
                assert(self.checks_performed@.subrange(0, i + 1).drop_last() =~= self.checks_performed@.subrange(0, i as int));
            }
            if r.success {
                successful = successful + 1;
            }
            results.push(ValidationResult {
                check_type: r.check_type.clone(),
                success: r.success,
                message: r.message.clone(),
                timestamp: r.timestamp.clone(),
                duration_ms: r.duration_ms,
            });
            i = i + 1;
        }
        proof {
            assert(self.checks_performed@.subrange(0, i as int) =~= self.checks_performed@);
        }
        let total = self.checks_performed.len();
        let report = ValidationReport {
            overall_success: successful == total,
            total_checks: total,
            successful_checks: successful,
            failed_checks: total - successful,
            total_duration_ms,
            results,
        };
        assert(is_report(report, self.checks_performed@, total_duration_ms));
        report
    }
}

} // verus!
