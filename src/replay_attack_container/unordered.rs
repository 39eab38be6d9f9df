//! For transports that may reorder packets (UDP): identifiers are checked
//! against a bounded window of the most recently accepted ones and against a
//! range around the number of identifiers accepted so far.

use circular_queue::CircularQueue;
use parking_lot::lock_api;
use parking_lot::{Mutex, MutexGuard, RawMutex};
use std::sync::atomic::{AtomicU64, Ordering};
use vstd::prelude::*;

verus! {

/// How many accepted identifiers the window keeps, and how far from the count
/// of accepted identifiers an incoming one may lie.
pub const HISTORY_LEN: u64 = 50;

#[verifier::external_type_specification]
#[verifier::external_body]
#[verifier::reject_recursive_types(T)]
pub struct ExCircularQueue<T>(CircularQueue<T>);

#[verifier::external_type_specification]
#[verifier::external_body]
#[verifier::reject_recursive_types(R)]
#[verifier::reject_recursive_types(T)]
pub struct ExMutex<R, T: ?Sized>(lock_api::Mutex<R, T>);

#[verifier::external_type_specification]
#[verifier::external_body]
pub struct ExRawMutex(RawMutex);

/// The items of a circular queue, oldest first.
pub uninterp spec fn queue_items(q: CircularQueue<u64>) -> Seq<u64>;

/// The capacity that a circular queue was made with.
pub uninterp spec fn queue_capacity(q: CircularQueue<u64>) -> nat;

/// `s` after pushing `x` into a queue of capacity `cap`: the oldest item goes
/// when the queue is full, and a queue of capacity zero keeps nothing.
pub open spec fn pushed(s: Seq<u64>, x: u64, cap: nat) -> Seq<u64> {
    if cap == 0 {
        s
    } else if s.len() < cap {
        s.push(x)
    } else {
        s.drop_first().push(x)
    }
}

/// Relies on `CircularQueue::with_capacity`: an empty queue of that capacity.
#[verifier::external_body]
fn queue_with_capacity(capacity: usize) -> (r: CircularQueue<u64>)
    ensures
        queue_items(r) == Seq::<u64>::empty(),
        queue_capacity(r) == capacity,
{
    CircularQueue::with_capacity(capacity)
}

/// Relies on `CircularQueue::push`: `x` becomes the newest item; when the queue
/// is full it overwrites the oldest one.
#[verifier::external_body]
fn queue_push(q: &mut CircularQueue<u64>, x: u64)
    ensures
        queue_capacity(*final(q)) == queue_capacity(*old(q)),
        queue_items(*final(q)) == pushed(queue_items(*old(q)), x, queue_capacity(*old(q))),
    no_unwind
{
    q.push(x);
}

/// Relies on `CircularQueue::asc_iter`: the items from the oldest to the newest.
#[verifier::external_body]
fn queue_to_vec(q: &CircularQueue<u64>) -> (r: Vec<u64>)
    ensures
        r@ == queue_items(*q),
{
    q.asc_iter().copied().collect()
}

/// Relies on parking_lot's `Mutex::new`: an unlocked mutex around the value.
#[verifier::external_body]
fn new_mutex(w: Option<ReplayWindow>) -> Mutex<Option<ReplayWindow>> {
    Mutex::new(w)
}

/// Holds the lock on the window; dropping it releases the lock.
#[verifier::external_body]
pub struct WindowGuard<'a> {
    g: MutexGuard<'a, Option<ReplayWindow>>,
}

/// Relies on parking_lot's `Mutex::lock`: blocks until this thread holds the
/// lock.
#[verifier::external_body]
fn lock_window(m: &Mutex<Option<ReplayWindow>>) -> WindowGuard<'_> {
    WindowGuard { g: m.lock() }
}

/// Relies on `Option::take` through the guard's `DerefMut`: moves the window
/// out from under the lock. What comes back is whatever the lock's earlier
/// holders left, so nothing is assumed of it.
#[verifier::external_body]
fn take_window(g: &mut WindowGuard<'_>) -> Option<ReplayWindow> {
    g.g.take()
}

/// Relies on the guard's `DerefMut`: puts `w` back under the lock.
#[verifier::external_body]
fn put_window(g: &mut WindowGuard<'_>, w: ReplayWindow) {
    *g.g = Some(w);
}

/// Why an incoming identifier was refused.
#[derive(PartialEq, Eq, Structural, Copy, Clone, Debug)]
pub enum ReplayError {
    /// The identifier is among the recently accepted ones.
    AlreadyArrived,
    /// The identifier lies outside the admissible range: too old to be told
    /// apart from a delayed replay, or implausibly far ahead.
    OutOfWindow,
}

/// The inbound state of the unordered container: how many identifiers were
/// accepted, and the most recent of them (at most `HISTORY_LEN`).
pub struct ReplayWindow {
    accepted: u64,
    history: CircularQueue<u64>,
}

/// Lower bound (exclusive) of the admissible range: `accepted - HISTORY_LEN`,
/// or zero.
pub open spec fn window_min(accepted: u64) -> int {
    if accepted >= HISTORY_LEN {
        accepted - HISTORY_LEN
    } else {
        0
    }
}

/// Whether `pid` lies strictly inside the admissible range around `accepted`.
pub open spec fn in_range(accepted: u64, pid: u64) -> bool {
    window_min(accepted) < pid < accepted + HISTORY_LEN
}

/// The accepted count after one more acceptance; it stays at its maximum.
pub open spec fn next_count(accepted: u64) -> u64 {
    if accepted < u64::MAX {
        (accepted + 1) as u64
    } else {
        accepted
    }
}

impl ReplayWindow {
    #[verifier::type_invariant]
    spec fn inv(self) -> bool {
        &&& queue_capacity(self.history) == HISTORY_LEN
        &&& queue_items(self.history).len() <= HISTORY_LEN
    }

    /// How many identifiers were accepted.
    pub closed spec fn accepted_count(self) -> u64 {
        self.accepted
    }

    /// The recently accepted identifiers, oldest first.
    pub closed spec fn recent(self) -> Seq<u64> {
        queue_items(self.history)
    }

    /// A window that has accepted nothing.
    pub fn new() -> (r: Self)
        ensures
            r.accepted_count() == 0,
            r.recent() == Seq::<u64>::empty(),
    {
        Self { accepted: 0, history: queue_with_capacity(HISTORY_LEN as usize) }
    }

    /// Whether `pid` is among the recently accepted identifiers.
    fn contains(&self, pid: u64) -> (r: bool)
        ensures
            r == self.recent().contains(pid),
    {
        let items = queue_to_vec(&self.history);
        let mut i: usize = 0;
        while i < items.len()
            invariant
                items@ == self.recent(),
                0 <= i <= items.len(),
                forall|j: int| 0 <= j < i ==> items@[j] != pid,
            decreases items.len() - i,
        {
            if items[i] == pid {
                return true;
            }
            i += 1;
        }
        false
    }

    /// Accepts `pid` when it is not among the recent identifiers and lies
    /// strictly between `accepted - HISTORY_LEN` (or zero) and
    /// `accepted + HISTORY_LEN`; then counts it and keeps it in the window,
    /// dropping the oldest identifier when the window is full. Otherwise the
    /// window is left as it was.
    pub fn try_register(&mut self, pid: u64) -> (r: Result<(), ReplayError>)
        ensures
            old(self).recent().contains(pid) ==> r == Err::<(), ReplayError>(
                ReplayError::AlreadyArrived,
            ),
            !old(self).recent().contains(pid) && !in_range(old(self).accepted_count(), pid) ==> r
                == Err::<(), ReplayError>(ReplayError::OutOfWindow),
            r is Ok <==> !old(self).recent().contains(pid) && in_range(
                old(self).accepted_count(),
                pid,
            ),
            r is Ok ==> final(self).accepted_count() == next_count(old(self).accepted_count())
                && final(self).recent() == pushed(old(self).recent(), pid, HISTORY_LEN as nat),
            r is Err ==> final(self).accepted_count() == old(self).accepted_count()
                && final(self).recent() == old(self).recent(),
    {
        proof {
            use_type_invariant(&*self);
        }
        if self.contains(pid) {
            return Err(ReplayError::AlreadyArrived);
        }
        let min: u64 = self.accepted.saturating_sub(HISTORY_LEN);
        let below_max = pid < self.accepted || pid - self.accepted < HISTORY_LEN;
        if pid > min && below_max {
            if self.accepted < u64::MAX {
                self.accepted = self.accepted + 1;
            }
            queue_push(&mut self.history, pid);
            Ok(())
        } else {
            Err(ReplayError::OutOfWindow)
        }
    }
}

/// Tracks identifiers under out-of-order delivery. Safe to share between
/// threads: registration runs under a lock, the outgoing counter is atomic.
pub struct AntiReplayAttackContainerUnordered {
    history: Mutex<Option<ReplayWindow>>,
    counter_out: AtomicU64,
}

impl AntiReplayAttackContainerUnordered {
    /// Takes the next outgoing identifier: one atomic increment, so concurrent
    /// callers each get a different value.
    pub fn get_next_pid(&self) -> u64 {
        self.counter_out.fetch_add(1, Ordering::SeqCst)
    }

    /// Registers an incoming identifier by `ReplayWindow::try_register`, with
    /// the lock held from taking the window out until it is put back, so that
    /// lookup, count and insertion form one step. The window is missing only if
    /// an earlier holder never put it back; the identifier is then refused.
    pub fn try_register(&self, pid_received: u64) -> (r: Result<(), ReplayError>)
        ensures
            r is Ok ==> pid_received > 0,
    {
        let mut guard = lock_window(&self.history);
        match take_window(&mut guard) {
            Some(mut window) => {
                let r = window.try_register(pid_received);
                put_window(&mut guard, window);
                r
            },
            None => Err(ReplayError::OutOfWindow),
        }
    }
}

impl Default for AntiReplayAttackContainerUnordered {
    /// An empty window and an outgoing counter at zero.
    fn default() -> Self {
        Self { history: new_mutex(Some(ReplayWindow::new())), counter_out: AtomicU64::new(0) }
    }
}

} // verus!
