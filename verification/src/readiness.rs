//! The one-shot readiness notifier.
//!
//! A fixed delay after the application initializes, a `ready` event is
//! emitted exactly once, independently of whether `start` was ever called.
//! The timer and the emission are the embedding application's; the notifier
//! decides, and guarantees, that at most one claim to emit is ever granted.

use vstd::prelude::*;

verus! {

/// Grants the right to emit the `ready` event to exactly one caller.
pub struct ReadyNotifier {
    fired: bool,
}

impl View for ReadyNotifier {
    type V = bool;

    /// Whether the emission has already been claimed.
    closed spec fn view(&self) -> bool {
        self.fired
    }
}

impl ReadyNotifier {
    /// A fresh notifier: nothing has been emitted yet.
    pub fn new() -> (n: ReadyNotifier)
        ensures
            !n@,
    {
        ReadyNotifier { fired: false }
    }

    /// Claim the emission: returns true on the first call and false on
    /// every later one, whatever else the application did in between.
    pub fn claim_emission(&mut self) -> (emit: bool)
        ensures
            emit == !old(self)@,
            final (self)@,
    {
        let emit = !self.fired;
        self.fired = true;
        emit
    }
}

/// How many of `calls` successive claims are granted, starting from a
/// notifier whose state is `fired`.
pub open spec fn emissions_during(fired: bool, calls: nat) -> nat
    decreases calls,
{
    if calls == 0 {
        0
    } else {
        (if fired {
            0nat
        } else {
            1nat
        }) + emissions_during(true, (calls - 1) as nat)
    }
}

/// A notifier that has fired grants no further claim, however often it is
/// asked.
pub proof fn lemma_fired_notifier_never_emits(calls: nat)
    ensures
        emissions_during(true, calls) == 0,
    decreases calls,
{
    if calls > 0 {
        lemma_fired_notifier_never_emits((calls - 1) as nat);
    }
}

/// The `ready` event fires exactly once per application run: out of any
/// positive number of claims on a fresh notifier, exactly one is granted —
/// regardless of whether, or how often, `start` was ever called, since the
/// notifier's state is touched by nothing else.
pub proof fn lemma_ready_fires_exactly_once(calls: nat)
    requires
        calls >= 1,
    ensures
        emissions_during(false, calls) == 1,
{
    lemma_fired_notifier_never_emits((calls - 1) as nat);
}

} // verus!
