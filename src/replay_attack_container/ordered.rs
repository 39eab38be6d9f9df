//! For transports that deliver in order and exactly once (TCP): an incoming
//! identifier is valid only if it is the next one expected.

use std::sync::atomic::{AtomicU64, Ordering};
use vstd::prelude::*;

verus! {

/// Two lock-free counters: the next identifier to send, and the next one
/// expected from the peer. Safe to share between threads.
pub struct AntiReplayAttackContainerOrdered {
    in_counter: AtomicU64,
    out_counter: AtomicU64,
}

impl AntiReplayAttackContainerOrdered {
    /// Takes the next outgoing identifier: one atomic increment, so concurrent
    /// callers each get a different value.
    pub fn get_next_pid(&self) -> u64 {
        self.out_counter.fetch_add(1, Ordering::SeqCst)
    }

    /// Accepts `pid` if and only if it is the identifier expected next, and then
    /// expects `pid + 1`; one atomic compare-and-exchange. A duplicate, a gap or a
    /// reordering is refused and leaves the counter as it was. `u64::MAX` has no
    /// successor and is always refused.
    pub fn on_pid_received(&self, pid: u64) -> (r: bool)
        ensures
            pid == u64::MAX ==> !r,
    {
        match pid.checked_add(1) {
            Some(next) => self.in_counter.compare_exchange(
                pid,
                next,
                Ordering::SeqCst,
                Ordering::SeqCst,
            ).is_ok(),
            None => false,
        }
    }
}

impl Default for AntiReplayAttackContainerOrdered {
    /// Both counters start at zero.
    fn default() -> Self {
        Self { in_counter: AtomicU64::new(0), out_counter: AtomicU64::new(0) }
    }
}

} // verus!
