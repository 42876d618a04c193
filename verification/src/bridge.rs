//! Turning the observations of a child-process invocation of `adb` into
//! results and errors.
//!
//! The caller spawns the resolved executable, waits for it, and feeds the
//! captured exit status, standard output and standard error into the
//! functions here; before spawning it checks that the executable exists and
//! asks [`spawn_precheck`] whether to proceed. A spawn failure and a non-zero
//! exit are distinct errors by construction.

use vstd::prelude::*;
use crate::devices::{Device, models_of, devices_of_output, parse_devices};

verus! {

/// Why a process invocation failed: the executable could not be started at
/// all, or it ran and exited non-zero. Each carries the text surfaced to the
/// caller — what went wrong spawning, or the captured standard error.
#[derive(Clone, Debug)]
pub enum ProcessError {
    SpawnFailure(String),
    NonZeroExit(String),
}

impl ProcessError {
    /// The text the failure carries.
    pub open spec fn spec_message(&self) -> Seq<char> {
        match self {
            ProcessError::SpawnFailure(s) => s@,
            ProcessError::NonZeroExit(s) => s@,
        }
    }

    /// The text the failure carries, surfaced verbatim.
    pub fn message(&self) -> (r: String)
        ensures
            r@ == self.spec_message(),
    {
        match self {
            ProcessError::SpawnFailure(s) => s.clone(),
            ProcessError::NonZeroExit(s) => s.clone(),
        }
    }
}

/// The text of the spawn-failure error for a missing executable.
pub open spec fn spec_missing_adb_message(adb_path: Seq<char>) -> Seq<char> {
    "adb executable not found: "@ + adb_path
}

/// Decides whether a spawn may proceed: the caller reports whether the
/// resolved executable exists, and a missing executable is refused up front
/// as a spawn failure — without starting the adb server for nothing.
pub fn spawn_precheck(adb_path: &str, adb_exists: bool) -> (r: Result<(), ProcessError>)
    ensures
        adb_exists <==> r is Ok,
        !adb_exists ==> (r matches Err(ProcessError::SpawnFailure(m)) && m@
            == spec_missing_adb_message(adb_path@)),
{
    if adb_exists {
        Ok(())
    } else {
        let message = String::from_str("adb executable not found: ").concat(adb_path);
        Err(ProcessError::SpawnFailure(message))
    }
}

/// The result of a finished invocation: the captured standard output on a
/// zero exit, or a non-zero-exit error carrying the captured standard error.
pub fn command_outcome(exit_ok: bool, stdout: String, stderr: String) -> (r: Result<
    String,
    ProcessError,
>)
    ensures
        exit_ok ==> r == Ok::<String, ProcessError>(stdout),
        !exit_ok ==> r == Err::<String, ProcessError>(ProcessError::NonZeroExit(stderr)),
{
    if exit_ok {
        Ok(stdout)
    } else {
        Err(ProcessError::NonZeroExit(stderr))
    }
}

/// The device listing from the outcome of `adb devices`: on success the
/// captured output parses into records, and any invocation error passes
/// through unchanged.
pub fn list_devices_outcome(r: Result<String, ProcessError>) -> (out: Result<
    Vec<Device>,
    ProcessError,
>)
    ensures
        r matches Ok(s) ==> out matches Ok(ds) && models_of(ds@) == devices_of_output(s@),
        r matches Err(e) ==> out == Err::<Vec<Device>, ProcessError>(e),
{
    match r {
        Ok(s) => Ok(parse_devices(s.as_str())),
        Err(e) => Err(e),
    }
}

/// The shutdown outcome of `adb kill-server`: a run that exited non-zero is
/// suppressed — the caller only logs it, so that application exit is never
/// blocked — while a spawn failure still surfaces.
pub fn shutdown_outcome(r: Result<String, ProcessError>) -> (out: Result<(), ProcessError>)
    ensures
        out is Ok <==> !(r matches Err(ProcessError::SpawnFailure(_))),
        r matches Err(ProcessError::SpawnFailure(s)) ==> out == Err::<(), ProcessError>(
            ProcessError::SpawnFailure(s),
        ),
{
    match r {
        Ok(_) => Ok(()),
        Err(e) => match e {
            ProcessError::NonZeroExit(_) => Ok(()),
            ProcessError::SpawnFailure(s) => Err(ProcessError::SpawnFailure(s)),
        },
    }
}

/// Law: a spawn failure is never the same error as a non-zero exit, whatever
/// texts the two carry.
pub proof fn lemma_spawn_failure_distinct(spawn_text: String, exit_text: String)
    ensures
        ProcessError::SpawnFailure(spawn_text) != ProcessError::NonZeroExit(exit_text),
{
}

} // verus!
