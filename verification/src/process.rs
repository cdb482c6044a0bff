//! The spawned process: its handle, the attempts to start it, and what follows a
//! start.

use vstd::prelude::*;
use crate::launch::TerminalKind;

verus! {

/// The handle of the spawned terminal process, as the number that the system gave.
/// Zero is the null handle of a process that cannot be waited for.
#[derive(Debug)]
pub struct ProcessHandle {
    raw: usize,
}

impl View for ProcessHandle {
    type V = usize;

    closed spec fn view(&self) -> usize {
        self.raw
    }
}

impl ProcessHandle {
    /// The handle with the number `handle`.
    pub fn new(handle: usize) -> (r: ProcessHandle)
        ensures
            r@ == handle,
    {
        ProcessHandle { raw: handle }
    }

    /// Whether this is the null handle: there is no process to wait for.
    pub fn is_null(&self) -> (r: bool)
        ensures
            r == (self@ == 0),
    {
        self.raw == 0
    }

    /// The number that the system gave.
    pub fn as_raw(&self) -> (r: usize)
        ensures
            r == self@,
    {
        self.raw
    }
}

/// Why no terminal window could be opened.
#[derive(Clone, Copy, Debug, PartialEq, Eq, Structural)]
pub enum LaunchError {
    /// The system refused to create the process, with this error code.
    Os(i32),
    /// None of the terminal emulators that were tried could be started.
    NoTerminalFound,
}

/// Where a launch stands.
#[derive(Clone, Copy, Debug, PartialEq, Eq, Structural)]
pub enum LaunchStep {
    /// The candidate with this index is to be started next.
    Spawn(usize),
    /// The candidate with this index runs.
    Launched(usize),
    /// The launch has failed.
    Failed(LaunchError),
}

/// How a launch with `candidates` programs to try begins.
pub open spec fn first_step(candidates: usize) -> LaunchStep {
    if candidates == 0 {
        LaunchStep::Failed(LaunchError::NoTerminalFound)
    } else {
        LaunchStep::Spawn(0)
    }
}

/// How a launch goes on after the candidate `tried` was started: `error` is `None`
/// where it runs, and else holds the system's error code. A list of emulators is
/// tried to its end; any other terminal has one candidate, whose error is the
/// launch's.
pub open spec fn step_after(
    kind: TerminalKind,
    candidates: usize,
    tried: usize,
    error: Option<i32>,
) -> LaunchStep {
    match error {
        None => LaunchStep::Launched(tried),
        Some(code) => if kind != TerminalKind::PosixEmulators {
            LaunchStep::Failed(LaunchError::Os(code))
        } else if tried + 1 < candidates {
            LaunchStep::Spawn((tried + 1) as usize)
        } else {
            LaunchStep::Failed(LaunchError::NoTerminalFound)
        },
    }
}

/// How a launch with `candidates` programs to try begins.
pub fn begin_launch(candidates: usize) -> (r: LaunchStep)
    ensures
        r == first_step(candidates),
{
    if candidates == 0 {
        LaunchStep::Failed(LaunchError::NoTerminalFound)
    } else {
        LaunchStep::Spawn(0)
    }
}

/// How a launch goes on after the candidate `tried` was started.
pub fn continue_launch(kind: TerminalKind, candidates: usize, tried: usize, error: Option<i32>) -> (r:
    LaunchStep)
    ensures
        r == step_after(kind, candidates, tried, error),
{
    match error {
        None => LaunchStep::Launched(tried),
        Some(code) => {
            let is_list = match kind {
                TerminalKind::PosixEmulators => true,
                _ => false,
            };
            if !is_list {
                LaunchStep::Failed(LaunchError::Os(code))
            } else if tried < candidates && tried + 1 < candidates {
                LaunchStep::Spawn(tried + 1)
            } else {
                LaunchStep::Failed(LaunchError::NoTerminalFound)
            }
        },
    }
}

/// Where a launch over a list of emulators ends, when it stands at candidate `at`
/// and `errors` holds for each candidate what starting it gives.
pub open spec fn launch_end(errors: Seq<Option<i32>>, at: usize) -> LaunchStep
    decreases errors.len() - at,
{
    if at >= errors.len() || errors.len() > usize::MAX {
        LaunchStep::Failed(LaunchError::NoTerminalFound)
    } else {
        match step_after(TerminalKind::PosixEmulators, errors.len() as usize, at, errors[at as int]) {
            LaunchStep::Spawn(next) => launch_end(errors, next),
            end => end,
        }
    }
}

/// Of a list of emulators the first that starts wins, and the launch fails, with
/// `NoTerminalFound`, exactly where none starts.
pub proof fn law_first_success_wins(errors: Seq<Option<i32>>, at: usize)
    requires
        errors.len() <= usize::MAX,
        at <= errors.len(),
    ensures
        match launch_end(errors, at) {
            LaunchStep::Launched(i) => at <= i < errors.len() && errors[i as int] is None && (
            forall|j: int| at <= j < i ==> errors[j] is Some),
            LaunchStep::Failed(e) => e == LaunchError::NoTerminalFound && (forall|j: int|
                at <= j < errors.len() ==> errors[j] is Some),
            LaunchStep::Spawn(_) => false,
        },
    decreases errors.len() - at,
{
    if at < errors.len() {
        match step_after(TerminalKind::PosixEmulators, errors.len() as usize, at, errors[at as int]) {
            LaunchStep::Spawn(next) => {
                law_first_success_wins(errors, next);
            },
            _ => {},
        }
    }
}

/// What the program does once the window is open.
#[derive(Clone, Copy, Debug, PartialEq, Eq, Structural)]
pub enum FollowUp {
    /// It returns at once.
    Nothing,
    /// It waits for the process to end.
    Wait,
    /// It hands the process to the backup monitor and returns.
    Monitor,
}

/// What follows a launch. Without a file, or with a handle that cannot be waited
/// for, nothing does. A file that is tracked, its initial hash not empty, is
/// handed to the monitor; for one that is not, the program waits.
pub open spec fn follow_up_of(handle: usize, has_file: bool, initial_hash: Seq<char>) -> FollowUp {
    if !has_file || handle == 0 {
        FollowUp::Nothing
    } else if initial_hash.len() > 0 {
        FollowUp::Monitor
    } else {
        FollowUp::Wait
    }
}

/// What follows a launch that gave `handle`.
pub fn follow_up(handle: &ProcessHandle, has_file: bool, initial_hash: &str) -> (r: FollowUp)
    ensures
        r == follow_up_of(handle@, has_file, initial_hash@),
{
    if !has_file || handle.is_null() {
        FollowUp::Nothing
    } else if !initial_hash.is_empty() {
        FollowUp::Monitor
    } else {
        FollowUp::Wait
    }
}

/// Whether a terminal of this kind gives a handle that can be waited for: only
/// the console, whose process the program creates itself.
pub open spec fn reports_exit(kind: TerminalKind) -> bool {
    kind == TerminalKind::Console
}

/// The handle of a launch: the number that the system gave, for a terminal that
/// can be waited for, and the null handle for any other.
pub fn handle_after(kind: TerminalKind, raw: usize) -> (r: ProcessHandle)
    ensures
        r@ == if reports_exit(kind) {
            raw
        } else {
            0
        },
{
    match kind {
        TerminalKind::Console => ProcessHandle::new(raw),
        _ => ProcessHandle::new(0),
    }
}

} // verus!
