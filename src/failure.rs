use vstd::prelude::*;

verus! {

/// What the host reported when a process could not be started or awaited.
#[derive(Clone, PartialEq, Eq, Debug)]
pub struct IoFailure {
    /// The host said that the program does not exist.
    pub not_found: bool,
    pub message: String,
}

/// Every way a bootstrap invocation can fail.
#[derive(Clone, PartialEq, Eq, Debug)]
pub enum Failure {
    /// The container runtime could not list, build or launch.
    Runtime(String),
    /// A build or launch process ended with a status other than success;
    /// `code` is absent when the process was ended by a signal.
    Exit { command: String, code: Option<i32> },
    /// Connecting to the database or running a batch failed.
    Database(String),
    /// The container runtime's program is missing from this host.
    CommandNotFound { command: String, cause: String },
    /// Terminating a freshly launched container failed after a database failure.
    Compensation { database: String, cleanup: String },
    /// An event arrived that the current phase does not expect.
    Unknown,
}

/// How a build or launch process went, as the host reports it.
#[derive(Clone, PartialEq, Eq, Debug)]
pub enum ProcessOutcome {
    /// The process could not be started.
    SpawnFailed(IoFailure),
    /// The process started, but waiting for it failed.
    WaitFailed(IoFailure),
    /// The process ended with this exit code.
    Exited(Option<i32>),
}

pub open spec fn not_found_failure(command: String, e: IoFailure) -> Failure {
    if e.not_found {
        Failure::CommandNotFound { command, cause: e.message }
    } else {
        Failure::Runtime(e.message)
    }
}

pub open spec fn exit_result(res: Result<Option<i32>, IoFailure>, command: String) -> Result<(), Failure> {
    match res {
        Err(e) => Err(Failure::Runtime(e.message)),
        Ok(code) => if code == Some(0i32) {
            Ok(())
        } else {
            Err(Failure::Exit { command, code })
        },
    }
}

pub open spec fn process_result(o: ProcessOutcome, command: String) -> Result<(), Failure> {
    match o {
        ProcessOutcome::SpawnFailed(e) => Err(not_found_failure(command, e)),
        ProcessOutcome::WaitFailed(e) => exit_result(Err(e), command),
        ProcessOutcome::Exited(code) => exit_result(Ok(code), command),
    }
}

/// Maps a failure to start the runtime's program to the failure reported:
/// a missing program gets its own variant naming the command.
pub fn check_not_found(command: &String, e: IoFailure) -> (r: Failure)
    ensures
        r == not_found_failure(*command, e),
{
    if e.not_found {
        Failure::CommandNotFound { command: command.clone(), cause: e.message }
    } else {
        Failure::Runtime(e.message)
    }
}

/// Turns the awaited status of a process into a result: only exit code 0 succeeds.
pub fn success_check(res: Result<Option<i32>, IoFailure>, command: &String) -> (r: Result<(), Failure>)
    ensures
        r == exit_result(res, *command),
{
    match res {
        Err(e) => Err(Failure::Runtime(e.message)),
        Ok(code) => {
            let ok = match code {
                Some(c) => c == 0,
                None => false,
            };
            if ok {
                Ok(())
            } else {
                Err(Failure::Exit { command: command.clone(), code })
            }
        },
    }
}

/// The result of a build (or launch) process: a start failure, a failure
/// to await it, or its exit status.
pub fn build_step(outcome: ProcessOutcome, command: &String) -> (r: Result<(), Failure>)
    ensures
        r == process_result(outcome, *command),
{
    match outcome {
        ProcessOutcome::SpawnFailed(e) => Err(check_not_found(command, e)),
        ProcessOutcome::WaitFailed(e) => success_check(Err(e), command),
        ProcessOutcome::Exited(code) => success_check(Ok(code), command),
    }
}

} // verus!
