//! The slot-level laws of the supervisor, stated over the step functions
//! that the command contracts in [`crate::supervisor`] are written with.
//!
//! The embedding application's lock linearizes concurrent commands, so any
//! interleaving of `start` and `stop` calls is some sequence of these
//! steps; the lemmas here pin down what every such sequence does to the
//! slot and how many processes it creates.

use crate::supervisor::failed_start_step;
use crate::supervisor::launches_of_start;
use crate::supervisor::start_step;
use crate::supervisor::status_of_start;
use crate::supervisor::status_of_stop;
use crate::supervisor::stop_step;
use crate::supervisor::StartStatus;
use crate::supervisor::StopStatus;
use vstd::prelude::*;

verus! {

/// The slot after a run of linearized `start` commands whose launch
/// attempts all succeed; `pids` holds, in order, the process the OS would
/// hand each command if it launches.
pub open spec fn slot_after_starts(slot: Option<u64>, pids: Seq<u64>) -> Option<u64>
    decreases pids.len(),
{
    if pids.len() == 0 {
        slot
    } else {
        slot_after_starts(start_step(slot, pids[0]), pids.skip(1))
    }
}

/// How many processes that same run of `start` commands creates.
pub open spec fn launches_during_starts(slot: Option<u64>, pids: Seq<u64>) -> nat
    decreases pids.len(),
{
    if pids.len() == 0 {
        0
    } else {
        launches_of_start(slot) + launches_during_starts(start_step(slot, pids[0]), pids.skip(1))
    }
}

/// Idempotence of `start`, run on: an occupied slot absorbs any number of
/// further `start` commands — the held process is unchanged and no launch
/// is ever attempted.
pub proof fn lemma_running_slot_absorbs_starts(slot: Option<u64>, pids: Seq<u64>)
    requires
        slot is Some,
    ensures
        slot_after_starts(slot, pids) == slot,
        launches_during_starts(slot, pids) == 0,
    decreases pids.len(),
{
    if pids.len() > 0 {
        lemma_running_slot_absorbs_starts(slot, pids.skip(1));
    }
}

/// Idempotence of `start`, two calls: after a first `start` from the empty
/// slot launches `first`, a second `start` leaves the held process
/// unchanged, launches nothing, and reports the backend already running.
pub proof fn lemma_start_idempotent(first: u64, second: u64)
    ensures
        start_step(start_step(None, first), second) == start_step(None, first),
        start_step(None, first) == Some(first),
        launches_of_start(start_step(None, first)) == 0,
        status_of_start(start_step(None, first)) == StartStatus::AlreadyRunning,
{
}

/// Mutual exclusion under concurrency: any positive number of `start`
/// commands, linearized by the lock against an empty slot, create exactly
/// one process — the first command's — and every later command finds the
/// slot occupied and reports success without launching.
pub proof fn lemma_concurrent_starts_launch_once(pids: Seq<u64>)
    requires
        pids.len() >= 1,
    ensures
        slot_after_starts(None, pids) == Some(pids[0]),
        launches_during_starts(None, pids) == 1,
{
    lemma_running_slot_absorbs_starts(Some(pids[0]), pids.skip(1));
}

/// The other half of mutual exclusion: each of the commands after the
/// first — the `i`-th call sees the slot left by the `i` calls before it —
/// finds the first command's process in place and reports the backend
/// already running, so a run of N commands yields one "started" and N−1
/// "already-running" reports.
pub proof fn lemma_later_start_reports_already_running(pids: Seq<u64>, i: int)
    requires
        1 <= i < pids.len(),
    ensures
        slot_after_starts(None, pids.take(i)) == Some(pids[0]),
        status_of_start(slot_after_starts(None, pids.take(i))) == StartStatus::AlreadyRunning,
{
    assert(pids.take(i)[0] == pids[0]);
    lemma_concurrent_starts_launch_once(pids.take(i));
}

/// Idempotence of `stop`: the first `stop` empties the slot, and a second
/// one, finding it empty, leaves it empty and reports "not running" — a
/// success, not an error.
pub proof fn lemma_stop_idempotent(slot: Option<u64>)
    ensures
        stop_step(slot) is None,
        stop_step(stop_step(slot)) == stop_step(slot),
        status_of_stop(stop_step(slot)) == StopStatus::NotRunning,
{
}

/// Round trip: a `start` from the empty slot followed by a `stop` leaves
/// the slot exactly as it was before the `start` — empty.
pub proof fn lemma_start_stop_round_trip(pid: u64)
    ensures
        stop_step(start_step(None, pid)) == None::<u64>,
{
}

/// Launch failure leaves the state unchanged: a failed launch attempt
/// keeps the slot empty, so the next `start` attempts a fresh launch
/// rather than reporting the backend running.
pub proof fn lemma_failed_start_leaves_startable()
    ensures
        failed_start_step(None) is None,
        launches_of_start(failed_start_step(None)) == 1,
        status_of_start(failed_start_step(None)) == StartStatus::Started,
{
}

} // verus!
