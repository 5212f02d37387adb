//! The one child process the studio runs: what to start, its errors, and
//! the decisions of starting and stopping it (one run at a time; stopping a
//! finished process is fine). Spawning, killing and waiting are outside work.
use vstd::prelude::*;
use vstd::string::*;

use crate::text::{owned, views};

verus! {

/// The process to start.
#[derive(Debug, Clone)]
pub struct SpawnSpec {
    /// Executable name or path.
    pub program: String,
    /// Arguments.
    pub args: Vec<String>,
}

impl SpawnSpec {
    /// A spec from a program and its arguments.
    pub fn new(program: &str, args: Vec<String>) -> (r: SpawnSpec)
        ensures
            r.program@ == program@,
            views(r.args@) == views(args@),
    {
        SpawnSpec { program: owned(program), args }
    }
}

/// What can go wrong with the child process.
#[derive(Debug, Clone, PartialEq, Eq)]
pub enum ChildProcessError {
    /// A start while a process is running.
    AlreadyRunning,
    /// A stop while no process is there.
    NotRunning,
    /// The process could not be started (the OS error text).
    Spawn(String),
    /// The process could not be killed (the OS error text).
    Kill(String),
    /// Waiting for the process failed (the OS error text).
    Wait(String),
}

/// The message of an error.
pub open spec fn child_error_text(e: ChildProcessError) -> Seq<char> {
    match e {
        ChildProcessError::AlreadyRunning => "子プロセスは既に実行中です"@,
        ChildProcessError::NotRunning => "子プロセスは実行中ではありません"@,
        ChildProcessError::Spawn(m) => "起動に失敗: "@ + m@,
        ChildProcessError::Kill(m) => "停止に失敗: "@ + m@,
        ChildProcessError::Wait(m) => "終了待機に失敗: "@ + m@,
    }
}

impl ChildProcessError {
    /// The message of the error (see [`child_error_text`]).
    pub fn message(&self) -> (r: String)
        ensures
            r@ == child_error_text(*self),
    {
        match self {
            ChildProcessError::AlreadyRunning => owned("子プロセスは既に実行中です"),
            ChildProcessError::NotRunning => owned("子プロセスは実行中ではありません"),
            ChildProcessError::Spawn(m) => {
                let mut s = String::from_str("起動に失敗: ");
                s.append(m.as_str());
                s
            },
            ChildProcessError::Kill(m) => {
                let mut s = String::from_str("停止に失敗: ");
                s.append(m.as_str());
                s
            },
            ChildProcessError::Wait(m) => {
                let mut s = String::from_str("終了待機に失敗: ");
                s.append(m.as_str());
                s
            },
        }
    }
}

/// Whether a new process may be started: not while one is running.
pub fn start_check(running: bool) -> (r: Result<(), ChildProcessError>)
    ensures
        r == if running {
            Err::<(), ChildProcessError>(ChildProcessError::AlreadyRunning)
        } else {
            Ok::<(), ChildProcessError>(())
        },
{
    if running {
        Err(ChildProcessError::AlreadyRunning)
    } else {
        Ok(())
    }
}

/// How to stop the child process.
#[derive(Debug, Clone, Copy, PartialEq, Eq)]
pub enum StopPlan {
    /// It already ended: forget it and collect its output readers.
    Reap,
    /// Kill it, wait for it, then forget it and collect its readers.
    KillAndReap,
}

/// How to stop: an error when no process is there, otherwise kill it only
/// when it is still running.
pub fn stop_plan(has_child: bool, running: bool) -> (r: Result<StopPlan, ChildProcessError>)
    ensures
        r == if !has_child {
            Err::<StopPlan, ChildProcessError>(ChildProcessError::NotRunning)
        } else if running {
            Ok::<StopPlan, ChildProcessError>(StopPlan::KillAndReap)
        } else {
            Ok::<StopPlan, ChildProcessError>(StopPlan::Reap)
        },
{
    if !has_child {
        Err(ChildProcessError::NotRunning)
    } else if running {
        Ok(StopPlan::KillAndReap)
    } else {
        Ok(StopPlan::Reap)
    }
}

/// Whether the process is running: there is one and it has not ended.
pub fn is_running(has_child: bool, still_alive: bool) -> (r: bool)
    ensures
        r == (has_child && still_alive),
{
    has_child && still_alive
}

} // verus!
