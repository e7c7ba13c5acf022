use vstd::prelude::*;

verus! {

/// What can stop a composed binary before or while it runs its entry point.
#[derive(Debug, Clone, Copy, PartialEq, Eq, Structural)]
pub enum BootstrapError {
    /// The configuration block is corrupt or was never patched.
    ConfigCorrupt,
    /// The running binary could not read its own file.
    SelfReadError,
    /// The trailer is absent or disagrees with the file's length.
    TrailerCorrupt,
    /// The payload could not be unpacked.
    ExtractFailed,
    /// The entry point could not be started.
    SpawnFailed,
    /// The entry point ended without an exit code.
    AbnormalTermination,
}

impl BootstrapError {
    /// The reserved exit code of each failure: 3 for a corrupt configuration,
    /// 4 when the payload cannot be had, 5 when the entry point cannot be
    /// started, 6 when it ends without an exit code.
    pub open spec fn spec_exit_code(self) -> i32 {
        match self {
            BootstrapError::ConfigCorrupt => 3,
            BootstrapError::SelfReadError => 4,
            BootstrapError::TrailerCorrupt => 4,
            BootstrapError::ExtractFailed => 4,
            BootstrapError::SpawnFailed => 5,
            BootstrapError::AbnormalTermination => 6,
        }
    }

    /// The exit code that a composed binary ends with on this failure.
    pub fn exit_code(&self) -> (r: i32)
        ensures
            r == self.spec_exit_code(),
    {
        match self {
            BootstrapError::ConfigCorrupt => 3,
            BootstrapError::SelfReadError => 4,
            BootstrapError::TrailerCorrupt => 4,
            BootstrapError::ExtractFailed => 4,
            BootstrapError::SpawnFailed => 5,
            BootstrapError::AbnormalTermination => 6,
        }
    }
}

/// Whether a run must unpack its payload: always for a temporary directory;
/// for the cache, when there is no cache directory yet or it is older than
/// the binary itself. Times are nanoseconds from the Unix epoch.
pub open spec fn spec_should_extract(use_temp_dir: bool, cache_mtime: Option<i128>, self_mtime: i128) -> bool {
    use_temp_dir || match cache_mtime {
        None => true,
        Some(c) => c < self_mtime,
    }
}

/// Decides whether a run unpacks its payload or reuses the cache.
pub fn should_extract(use_temp_dir: bool, cache_mtime: Option<i128>, self_mtime: i128) -> (r: bool)
    ensures
        r == spec_should_extract(use_temp_dir, cache_mtime, self_mtime),
{
    if use_temp_dir {
        return true;
    }
    match cache_mtime {
        None => true,
        Some(c) => c < self_mtime,
    }
}

/// The steps of one run around the start of its entry point.
#[derive(Debug, Clone, Copy, PartialEq, Eq, Structural)]
pub struct RunPlan {
    /// Remove what stands at the extraction directory before unpacking.
    pub clear_first: bool,
    /// Unpack the payload into the extraction directory.
    pub extract: bool,
    /// Remove the extraction directory once the entry point is done.
    pub remove_after: bool,
}

/// Plans a run: a temporary directory is always filled and always removed; the
/// cache is reused while it is current, and otherwise cleared and refilled.
pub fn plan_run(use_temp_dir: bool, cache_mtime: Option<i128>, self_mtime: i128) -> (r: RunPlan)
    ensures
        r.extract == spec_should_extract(use_temp_dir, cache_mtime, self_mtime),
        r.clear_first == (r.extract && !use_temp_dir),
        r.remove_after == use_temp_dir,
{
    let extract = should_extract(use_temp_dir, cache_mtime, self_mtime);
    RunPlan { clear_first: extract && !use_temp_dir, extract, remove_after: use_temp_dir }
}

/// How the entry point's process ended.
#[derive(Debug, Clone, Copy, PartialEq, Eq, Structural)]
pub enum ChildOutcome {
    /// It exited with this code.
    Exited(i32),
    /// It ended without an exit code, by a signal.
    Terminated,
    /// It could not be started.
    SpawnFailed,
}

/// The exit code that a composed binary passes on for its entry point's end.
pub open spec fn spec_outcome_code(outcome: ChildOutcome) -> i32 {
    match outcome {
        ChildOutcome::Exited(c) => c,
        ChildOutcome::Terminated => BootstrapError::AbnormalTermination.spec_exit_code(),
        ChildOutcome::SpawnFailed => BootstrapError::SpawnFailed.spec_exit_code(),
    }
}

/// What a run does once its entry point is done.
#[derive(Debug, Clone, Copy, PartialEq, Eq, Structural)]
pub struct RunEnd {
    /// Remove the extraction directory.
    pub remove_workdir: bool,
    /// The code the composed binary exits with.
    pub exit_code: i32,
}

/// Ends a run: the entry point's own exit code is passed on, a failure to run
/// it becomes its reserved code, and a temporary directory is removed on every
/// one of these paths.
pub fn finish_run(use_temp_dir: bool, outcome: ChildOutcome) -> (r: RunEnd)
    ensures
        r.remove_workdir == use_temp_dir,
        r.exit_code == spec_outcome_code(outcome),
{
    let exit_code = match outcome {
        ChildOutcome::Exited(c) => c,
        ChildOutcome::Terminated => BootstrapError::AbnormalTermination.exit_code(),
        ChildOutcome::SpawnFailed => BootstrapError::SpawnFailed.exit_code(),
    };
    RunEnd { remove_workdir: use_temp_dir, exit_code }
}

/// A cache written no earlier than the binary is reused by every later run of
/// that binary; once the binary is made newer than the cache, the next run
/// unpacks again.
pub proof fn lemma_cache_reuse(cache_mtime: i128, self_mtime: i128, touched_mtime: i128)
    requires
        cache_mtime >= self_mtime,
    ensures
        !spec_should_extract(false, Some(cache_mtime), self_mtime),
        touched_mtime > cache_mtime ==> spec_should_extract(false, Some(cache_mtime), touched_mtime),
{
}

} // verus!
