//! A bounded pool of inference sessions.
//!
//! The pool owns its sessions and the capacity accounting: a count of free
//! permits, never above the number of sessions, and a round-robin cursor that
//! picks the session handed out with each permit. Waiting for a permit (with a
//! timeout) is left to the caller: `acquire_attempt` says whether to take the
//! granted guard, to wait, or to give up because the pool was closed.

use vstd::prelude::*;

use crate::error::VocalizeError;

verus! {

/// The abstract state of a pool.
pub struct PoolView<S> {
    /// The sessions, in pool order; their number is the capacity.
    pub sessions: Seq<S>,
    /// Permits not currently held by a guard.
    pub available: nat,
    /// Index of the session handed out with the next permit.
    pub cursor: nat,
    /// Whether the pool was torn down.
    pub closed: bool,
}

/// One step that a caller may take on a pool.
pub enum PoolOp {
    /// Ask for a permit without waiting.
    Acquire,
    /// Return a permit.
    Release,
}

impl<S> PoolView<S> {
    /// Number of permits, equal to the number of sessions.
    pub open spec fn capacity(self) -> nat {
        self.sessions.len()
    }

    /// Number of guards outstanding.
    pub open spec fn in_use(self) -> int {
        self.capacity() - self.available
    }

    /// A pool has at least one session, never more free permits than
    /// sessions, and a cursor that names a session.
    pub open spec fn wf(self) -> bool {
        &&& self.capacity() >= 1
        &&& self.available <= self.capacity()
        &&& self.cursor < self.capacity()
    }

    /// Whether an acquisition succeeds now.
    pub open spec fn can_acquire(self) -> bool {
        !self.closed && self.available > 0
    }

    /// The state after one acquisition attempt.
    pub open spec fn after_acquire(self) -> PoolView<S> {
        if self.can_acquire() {
            PoolView {
                available: (self.available - 1) as nat,
                cursor: ((self.cursor + 1) as int % (self.capacity() as int)) as nat,
                ..self
            }
        } else {
            self
        }
    }

    /// The state after a guard is returned: one more free permit, never more
    /// than the capacity.
    pub open spec fn after_release(self) -> PoolView<S> {
        if self.available < self.capacity() {
            PoolView { available: self.available + 1, ..self }
        } else {
            self
        }
    }

    /// The state after one step.
    pub open spec fn step(self, op: PoolOp) -> PoolView<S> {
        match op {
            PoolOp::Acquire => self.after_acquire(),
            PoolOp::Release => self.after_release(),
        }
    }

    /// The state after a sequence of steps, taken in order.
    pub open spec fn run(self, ops: Seq<PoolOp>) -> PoolView<S>
        decreases ops.len(),
    {
        if ops.len() == 0 {
            self
        } else {
            self.step(ops[0]).run(ops.drop_first())
        }
    }
}

/// Every step keeps a pool well formed.
pub proof fn lemma_step_keeps_wf<S>(v: PoolView<S>, op: PoolOp)
    requires
        v.wf(),
    ensures
        v.step(op).wf(),
        v.step(op).sessions == v.sessions,
{
}

/// Bounded concurrency: whatever sequence of acquisitions and releases is
/// made on a pool of `n` sessions, the number of outstanding guards stays
/// between zero and `n`, and the sessions are never replaced.
pub proof fn lemma_bounded_concurrency<S>(v: PoolView<S>, ops: Seq<PoolOp>)
    requires
        v.wf(),
    ensures
        v.run(ops).wf(),
        v.run(ops).sessions == v.sessions,
        0 <= v.run(ops).in_use() <= v.capacity(),
    decreases ops.len(),
{
    if ops.len() > 0 {
        lemma_step_keeps_wf(v, ops[0]);
        lemma_bounded_concurrency(v.step(ops[0]), ops.drop_first());
    }
}

/// On a live pool with every permit held, an acquisition fails; once one
/// guard is returned exactly one acquisition succeeds and the next fails.
pub proof fn lemma_release_admits_exactly_one<S>(v: PoolView<S>)
    requires
        v.wf(),
        !v.closed,
        v.available == 0,
    ensures
        !v.can_acquire(),
        v.after_release().can_acquire(),
        !v.after_release().after_acquire().can_acquire(),
        v.after_release().after_acquire().in_use() == v.capacity(),
{
}

/// Release on failure: a guard that is returned, whatever the work done while
/// holding it, gives its permit back, so that the pool's capacity is as
/// before the acquisition and a following acquisition succeeds at once.
pub proof fn lemma_release_restores_capacity<S>(v: PoolView<S>)
    requires
        v.wf(),
        v.can_acquire(),
    ensures
        v.after_acquire().after_release().available == v.available,
        v.after_acquire().after_release().can_acquire(),
{
}

/// Why an acquisition did not hand out a guard.
#[derive(Debug, Clone, Copy, PartialEq, Eq)]
pub enum AcquireRefusal {
    /// Every permit is held: wait for a release, or time out.
    Exhausted,
    /// The pool was torn down: waiting cannot help.
    Closed,
}

/// A claim on one permit of a pool and the session picked for it. It is made
/// only by the pool and must be handed back with `release`.
#[derive(Debug)]
pub struct SessionGuard {
    session_id: usize,
}

impl SessionGuard {
    /// Index of the chosen session in its pool.
    pub closed spec fn spec_session_id(&self) -> nat {
        self.session_id as nat
    }

    /// Get the session ID (for debugging)
    pub fn session_id(&self) -> (r: usize)
        ensures
            r == self.spec_session_id(),
    {
        self.session_id
    }
}

/// A snapshot of a pool's occupancy.
#[derive(Debug, Clone, Copy, PartialEq, Eq)]
pub struct PoolStats {
    /// Sessions in the pool.
    pub total_sessions: usize,
    /// Permits not held by a guard.
    pub available_sessions: usize,
    /// Guards outstanding.
    pub sessions_in_use: usize,
    /// Largest number of guards outstanding at once.
    pub max_concurrent: usize,
}

impl PoolStats {
    /// Check if the pool is at capacity
    pub fn is_at_capacity(&self) -> (r: bool)
        ensures
            r == (self.available_sessions == 0),
    {
        self.available_sessions == 0
    }
}

/// Pool of sessions for concurrent inference.
pub struct OnnxSessionPool<S> {
    sessions: Vec<S>,
    current_index: usize,
    available: usize,
    max_concurrent: usize,
    closed: bool,
}

impl<S> View for OnnxSessionPool<S> {
    type V = PoolView<S>;

    closed spec fn view(&self) -> PoolView<S> {
        PoolView {
            sessions: self.sessions@,
            available: self.available as nat,
            cursor: self.current_index as nat,
            closed: self.closed,
        }
    }
}

impl<S> OnnxSessionPool<S> {
    #[verifier::type_invariant]
    spec fn inv(self) -> bool {
        &&& self@.wf()
        &&& self.max_concurrent == self.sessions@.len()
    }

    /// Create a pool over independently built sessions: every permit is free
    /// and the cursor is at the first session. A pool needs at least one session.
    pub fn new(sessions: Vec<S>) -> (r: Result<Self, VocalizeError>)
        ensures
            sessions@.len() == 0 <==> r is Err,
            r matches Ok(p) ==> p@ == (PoolView {
                sessions: sessions@,
                available: sessions@.len(),
                cursor: 0,
                closed: false,
            }),
            r matches Err(e) ==> e is ConfigurationError,
    {
        if sessions.len() == 0 {
            return Err(VocalizeError::configuration("Pool size must be greater than 0"));
        }
        let n = sessions.len();
        Ok(OnnxSessionPool {
            sessions,
            current_index: 0,
            available: n,
            max_concurrent: n,
            closed: false,
        })
    }

    /// Number of sessions in the pool.
    pub fn len(&self) -> (r: usize)
        ensures
            r == self@.capacity(),
    {
        self.sessions.len()
    }

    /// The session at `index`.
    pub fn session(&self, index: usize) -> (r: &S)
        requires
            index < self@.capacity(),
        ensures
            *r == self@.sessions[index as int],
    {
        &self.sessions[index]
    }

    /// Take a permit if one is free, and pick the next session in
    /// round-robin order; otherwise say why not, leaving the pool unchanged.
    pub fn acquire_attempt(&mut self) -> (r: Result<SessionGuard, AcquireRefusal>)
        ensures
            final(self)@ == old(self)@.after_acquire(),
            old(self)@.can_acquire() <==> r is Ok,
            r matches Ok(g) ==> g.spec_session_id() == old(self)@.cursor,
            r matches Err(e) ==> (e is Closed <==> old(self)@.closed),
    {
        proof {
            use_type_invariant(&*self);
        }
        if self.closed {
            return Err(AcquireRefusal::Closed);
        }
        if self.available == 0 {
            return Err(AcquireRefusal::Exhausted);
        }
        let index = self.current_index;
        self.available = self.available - 1;
        self.current_index = if index + 1 < self.sessions.len() {
            index + 1
        } else {
            0
        };
        proof {
            let n = self.sessions@.len() as int;
            assert(((index + 1) as int) % n == if index + 1 < n { (index + 1) as int } else { 0 }) by {
                if index + 1 < n {
                    vstd::arithmetic::div_mod::lemma_small_mod((index + 1) as nat, n as nat);
                } else {
                    vstd::arithmetic::div_mod::lemma_mod_self_0(n);
                }
            }
        }
        Ok(SessionGuard { session_id: index })
    }

    /// Try to acquire a session immediately (non-blocking)
    pub fn try_acquire_session(&mut self) -> (r: Option<SessionGuard>)
        ensures
            final(self)@ == old(self)@.after_acquire(),
            old(self)@.can_acquire() <==> r is Some,
            r matches Some(g) ==> g.spec_session_id() == old(self)@.cursor,
    {
        match self.acquire_attempt() {
            Ok(g) => Some(g),
            Err(_) => None,
        }
    }

    /// Return the permit held by `guard`.
    pub fn release(&mut self, guard: SessionGuard)
        ensures
            final(self)@ == old(self)@.after_release(),
    {
        proof {
            use_type_invariant(&*self);
        }
        if self.available < self.max_concurrent {
            self.available = self.available + 1;
        }
    }

    /// Tear the pool down: every later acquisition is refused as `Closed`.
    pub fn close(&mut self)
        ensures
            final(self)@ == (PoolView { closed: true, ..old(self)@ }),
    {
        proof {
            use_type_invariant(&*self);
        }
        self.closed = true;
    }

    /// Get pool statistics
    pub fn stats(&self) -> (r: PoolStats)
        ensures
            r.total_sessions == self@.capacity(),
            r.available_sessions == self@.available,
            r.sessions_in_use == self@.in_use(),
            r.max_concurrent == self@.capacity(),
    {
        proof {
            use_type_invariant(self);
        }
        PoolStats {
            total_sessions: self.sessions.len(),
            available_sessions: self.available,
            sessions_in_use: self.max_concurrent - self.available,
            max_concurrent: self.max_concurrent,
        }
    }

    /// Check if the pool is healthy: it has sessions and no more free
    /// permits than its configured maximum.
    pub fn is_healthy(&self) -> (r: bool)
        ensures
            r == (self@.capacity() > 0 && self@.available <= self@.capacity()),
            r,
    {
        proof {
            use_type_invariant(self);
        }
        self.sessions.len() > 0 && self.available <= self.max_concurrent
    }
}

} // verus!
