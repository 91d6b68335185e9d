//! The supervised slot and the `start` / `stop` command logic.
//!
//! The slot holds the identifier of the one running backend process, or
//! nothing. `start` and `stop` are split at the OS boundary: the supervisor
//! decides what must be done ([`Supervisor::start_action`],
//! [`Supervisor::begin_stop`]), the embedding application performs the
//! launch or kill while still holding its lock, and the outcome is handed
//! back ([`Supervisor::record_launch`], [`finish_stop`]) to be recorded and
//! turned into the reported status.

use vstd::prelude::*;
use vstd::string::StringExecFns;

verus! {

/// Status reported by a successful `start` command.
#[derive(Debug, Clone, Copy, PartialEq, Eq)]
pub enum StartStatus {
    /// A fresh backend process was launched.
    Started,
    /// The slot already held a process; nothing was launched.
    AlreadyRunning,
}

/// Status reported by a successful `stop` command.
#[derive(Debug, Clone, Copy, PartialEq, Eq)]
pub enum StopStatus {
    /// A termination signal was delivered to the held process.
    Stopped,
    /// The slot was empty; there was nothing to terminate.
    NotRunning,
}

/// A failure reported by a command, carrying the OS's own description.
#[derive(Debug, Clone, PartialEq, Eq)]
pub enum SupervisorError {
    /// The OS refused or failed to create the backend process.
    LaunchFailure(String),
    /// The OS refused or failed to deliver the termination signal.
    TerminationFailure(String),
}

/// What a `start` command must do, decided against the current slot.
#[derive(Debug, Clone, Copy, PartialEq, Eq)]
pub enum StartAction {
    /// The slot is empty: attempt to launch the backend.
    Launch,
    /// The slot is occupied: report success without launching.
    ReportAlreadyRunning,
}

/// The outcome of a launch attempt, as observed by the caller.
#[derive(Debug, Clone, PartialEq, Eq)]
pub enum LaunchEvent {
    /// The OS created a process with this identifier.
    Launched(u64),
    /// The OS failed, with this description.
    LaunchFailed(String),
}

/// The outcome of a `stop` command's kill phase, as observed by the caller.
#[derive(Debug, Clone, PartialEq, Eq)]
pub enum StopEvent {
    /// The slot was empty; no signal was sent.
    NoProcess,
    /// The termination signal was delivered.
    Killed,
    /// The termination signal failed, with this description.
    KillFailed(String),
}

/// The supervisor: one mutually-exclusive slot for one backend process.
///
/// The embedding application owns a single instance behind its lock; the
/// slot's value is the supervisor's whole observable state.
pub struct Supervisor {
    slot: Option<u64>,
}

impl View for Supervisor {
    type V = Option<u64>;

    closed spec fn view(&self) -> Option<u64> {
        self.slot
    }
}

impl Supervisor {
    /// A fresh supervisor: the slot starts empty.
    pub fn new() -> (s: Supervisor)
        ensures
            s@ is None,
    {
        Supervisor { slot: None }
    }

    /// Whether the slot currently holds a process.
    pub fn is_running(&self) -> (b: bool)
        ensures
            b == (self@ is Some),
    {
        self.slot.is_some()
    }

    /// Decide what a `start` command must do: launch exactly when the slot
    /// is empty, otherwise report the backend as already running.
    pub fn start_action(&self) -> (a: StartAction)
        ensures
            (a is Launch) <==> (self@ is None),
            launches_of_start(self@) == (if a is Launch { 1nat } else { 0nat }),
    {
        match self.slot {
            Option::None => StartAction::Launch,
            Option::Some(_) => StartAction::ReportAlreadyRunning,
        }
    }
}

impl Supervisor {
    /// Record the outcome of the launch attempt that a [`StartAction::Launch`]
    /// asked for. A successful launch fills the slot with the new process;
    /// a failed one leaves the slot exactly as it was, still empty, so a
    /// later `start` attempts a fresh launch.
    pub fn record_launch(&mut self, event: LaunchEvent) -> (r: Result<
        StartStatus,
        SupervisorError,
    >)
        requires
            old(self)@ is None,
        ensures
            match event {
                LaunchEvent::Launched(pid) => {
                    &&& final (self)@ == start_step(old(self)@, pid)
                    &&& final (self)@ == Some(pid)
                    &&& r == Ok::<StartStatus, SupervisorError>(StartStatus::Started)
                },
                LaunchEvent::LaunchFailed(d) => {
                    &&& final (self)@ == failed_start_step(old(self)@)
                    &&& final (self)@ == old(self)@
                    &&& r == Err::<StartStatus, SupervisorError>(SupervisorError::LaunchFailure(d))
                },
            },
    {
        match event {
            LaunchEvent::Launched(pid) => {
                self.slot = Some(pid);
                Ok(StartStatus::Started)
            },
            LaunchEvent::LaunchFailed(d) => Err(SupervisorError::LaunchFailure(d)),
        }
    }

    /// Begin a `stop` command: empty the slot unconditionally — the
    /// "assume terminated" policy, deliberately kept even if the kill that
    /// follows fails — and hand back what it held, so the caller can signal
    /// that process.
    pub fn begin_stop(&mut self) -> (h: Option<u64>)
        ensures
            final (self)@ == stop_step(old(self)@),
            final (self)@ is None,
            h == old(self)@,
    {
        let h = self.slot;
        self.slot = None;
        h
    }
}

/// Turn the kill phase's outcome into the `stop` command's report: an empty
/// slot and a delivered signal are both successes, only a refused signal is
/// an error — and even then the slot stays empty.
pub fn finish_stop(event: StopEvent) -> (r: Result<StopStatus, SupervisorError>)
    ensures
        match event {
            StopEvent::NoProcess => r == Ok::<StopStatus, SupervisorError>(StopStatus::NotRunning),
            StopEvent::Killed => r == Ok::<StopStatus, SupervisorError>(StopStatus::Stopped),
            StopEvent::KillFailed(d) => r == Err::<StopStatus, SupervisorError>(
                SupervisorError::TerminationFailure(d),
            ),
        },
{
    match event {
        StopEvent::NoProcess => Ok(StopStatus::NotRunning),
        StopEvent::Killed => Ok(StopStatus::Stopped),
        StopEvent::KillFailed(d) => Err(SupervisorError::TerminationFailure(d)),
    }
}

/// How many launch attempts one linearized `start` command makes against
/// this slot: one when it is empty, none when it is occupied.
pub open spec fn launches_of_start(slot: Option<u64>) -> nat {
    if slot is Some {
        0
    } else {
        1
    }
}

/// The slot after one linearized `start` whose launch attempt, if one is
/// made, succeeds and yields the process `pid`.
pub open spec fn start_step(slot: Option<u64>, pid: u64) -> Option<u64> {
    if slot is Some {
        slot
    } else {
        Some(pid)
    }
}

/// The slot after one linearized `start` whose launch attempt fails: it is
/// left untouched.
pub open spec fn failed_start_step(slot: Option<u64>) -> Option<u64> {
    slot
}

/// The slot after one linearized `stop`: always empty, whether or not a
/// process was held and whether or not the signal is delivered.
pub open spec fn stop_step(slot: Option<u64>) -> Option<u64> {
    None
}

/// The status a `start` reports against this slot when any launch it makes
/// succeeds.
pub open spec fn status_of_start(slot: Option<u64>) -> StartStatus {
    if slot is Some {
        StartStatus::AlreadyRunning
    } else {
        StartStatus::Started
    }
}

/// The status a `stop` reports against this slot when any signal it sends
/// is delivered.
pub open spec fn status_of_stop(slot: Option<u64>) -> StopStatus {
    if slot is Some {
        StopStatus::Stopped
    } else {
        StopStatus::NotRunning
    }
}

impl StartStatus {
    /// The text of this status as the embedding application surfaces it.
    pub open spec fn spec_message(self) -> Seq<char> {
        match self {
            StartStatus::Started => "started"@,
            StartStatus::AlreadyRunning => "already-running"@,
        }
    }

    /// The status text reported to the embedding application.
    pub fn message(&self) -> (r: String)
        ensures
            r@ == self.spec_message(),
    {
        match self {
            StartStatus::Started => String::from_str("started"),
            StartStatus::AlreadyRunning => String::from_str("already-running"),
        }
    }
}

impl StopStatus {
    /// The text of this status as the embedding application surfaces it.
    pub open spec fn spec_message(self) -> Seq<char> {
        match self {
            StopStatus::Stopped => "stopped"@,
            StopStatus::NotRunning => "not-running"@,
        }
    }

    /// The status text reported to the embedding application.
    pub fn message(&self) -> (r: String)
        ensures
            r@ == self.spec_message(),
    {
        match self {
            StopStatus::Stopped => String::from_str("stopped"),
            StopStatus::NotRunning => String::from_str("not-running"),
        }
    }
}

impl SupervisorError {
    /// The text of this error: a fixed phrase naming the failed operation,
    /// followed by the OS's own description.
    pub open spec fn spec_message(self) -> Seq<char> {
        match self {
            SupervisorError::LaunchFailure(d) => "could not launch the backend: "@ + d@,
            SupervisorError::TerminationFailure(d) => "could not terminate the backend: "@ + d@,
        }
    }

    /// The human-readable description reported to the embedding application.
    pub fn message(&self) -> (r: String)
        ensures
            r@ == self.spec_message(),
    {
        match self {
            SupervisorError::LaunchFailure(d) => String::from_str(
                "could not launch the backend: ",
            ).concat(d.as_str()),
            SupervisorError::TerminationFailure(d) => String::from_str(
                "could not terminate the backend: ",
            ).concat(d.as_str()),
        }
    }
}

} // verus!
