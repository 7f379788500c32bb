//! Per-task cooldown gate: decides whether a periodic task fires at a given
//! instant, with an out-of-band override for forced firings.

use vstd::prelude::*;

verus! {

/// Cooldown gate for one periodic task.
///
/// `enter` answers whether the guarded task should fire at the given instant
/// and, when it fires, restarts the cooldown. Time is carried as milliseconds
/// on a monotonic clock supplied by the caller. A freshly created gate fires
/// on its first `enter`, whatever time has elapsed.
pub struct EnterTimerGuard {
    /// Cooldown length in milliseconds.
    pub interval_ms: u64,
    /// Instant (monotonic milliseconds) of the most recent firing, or of creation.
    pub last_enter_ms: u64,
    /// When set, the next `enter` fires regardless of elapsed time.
    pub force_next: bool,
}

impl EnterTimerGuard {
    /// Due at `now_ms` exactly when a firing was forced or the full interval
    /// has elapsed since the last firing.
    pub open spec fn spec_due(self, now_ms: u64) -> bool {
        self.force_next || now_ms >= self.last_enter_ms + self.interval_ms
    }

    /// State after a firing at `now_ms`: the cooldown restarts and the force
    /// flag clears.
    pub open spec fn spec_after_fire(self, now_ms: u64) -> EnterTimerGuard {
        EnterTimerGuard { last_enter_ms: now_ms, force_next: false, ..self }
    }

    /// State after one `enter` at `now_ms`, whether or not it fired.
    pub open spec fn spec_step(self, now_ms: u64) -> EnterTimerGuard {
        if self.spec_due(now_ms) {
            self.spec_after_fire(now_ms)
        } else {
            self
        }
    }

    /// Create a gate with the given cooldown. The force flag starts set, so
    /// the first `enter` fires immediately and begins the first cooldown.
    pub fn new(interval_ms: u64, now_ms: u64) -> (gate: EnterTimerGuard)
        ensures
            gate == (EnterTimerGuard {
                interval_ms,
                last_enter_ms: now_ms,
                force_next: true,
            }),
    {
        EnterTimerGuard { interval_ms, last_enter_ms: now_ms, force_next: true }
    }

    /// Decide whether the guarded task fires at `now_ms`. A firing restarts
    /// the cooldown and clears the force flag; a non-firing changes nothing.
    pub fn enter(&mut self, now_ms: u64) -> (fired: bool)
        requires
            old(self).last_enter_ms <= now_ms,
        ensures
            fired == old(self).spec_due(now_ms),
            *final(self) == old(self).spec_step(now_ms),
    {
        if self.force_next || now_ms - self.last_enter_ms >= self.interval_ms {
            self.last_enter_ms = now_ms;
            self.force_next = false;
            true
        } else {
            false
        }
    }

    /// Request an out-of-band firing: the next `enter` fires at any elapsed
    /// time. Idempotent, and does not disturb the running cooldown.
    pub fn force_next_enter(&mut self)
        ensures
            *final(self) == (EnterTimerGuard { force_next: true, ..*old(self) }),
    {
        self.force_next = true;
    }
}

/// Law: a gate is due exactly when a firing was forced or the elapsed time
/// reaches the interval, and a firing always resets it so that (for a
/// positive interval) an immediate second call at the same instant is not due.
pub proof fn lemma_fire_resets(gate: EnterTimerGuard, now_ms: u64)
    requires
        gate.interval_ms > 0,
    ensures
        !gate.spec_after_fire(now_ms).spec_due(now_ms),
{
}

/// Law: after `force_next_enter`, the next `enter` fires at any elapsed time
/// (including zero), exactly once: the state it leaves behind is the same
/// freshly reset gate an ordinary firing leaves, and for a positive interval
/// that gate is not due again at the same instant.
pub proof fn lemma_force_fires_once(gate: EnterTimerGuard, now_ms: u64)
    ensures
        (EnterTimerGuard { force_next: true, ..gate }).spec_due(now_ms),
        (EnterTimerGuard { force_next: true, ..gate }).spec_after_fire(now_ms)
            == gate.spec_after_fire(now_ms),
        gate.interval_ms > 0 ==> !(EnterTimerGuard { force_next: true, ..gate })
            .spec_after_fire(now_ms).spec_due(now_ms),
{
}

} // verus!
