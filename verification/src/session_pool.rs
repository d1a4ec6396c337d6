//! The session pool: creates, lends and reclaims sessions, never letting
//! more than the configured maximum be outstanding at once, and never
//! recycling a session the server has discarded.

use vstd::prelude::*;

use crate::session::{Client, Session};

verus! {

/// The default bound on concurrently outstanding sessions.
pub const DEFAULT_SIZE_MAX_ACTIVE_SESSIONS: usize = 100;

/// What a lend request decides: reuse an idle session, create a new one
/// (the slot is already reserved), or wait because the pool is at its
/// bound.
pub enum LendOutcome<C: Client> {
    Reuse(Session<C>),
    MustCreate,
    AtCapacity,
}

/// The pool's state: the bound, the count of sessions lent out or being
/// created, and the idle sessions available for reuse.
pub struct SessionPool<C: Client> {
    max_active: usize,
    active: usize,
    idle: Vec<Session<C>>,
}

impl<C: Client> SessionPool<C> {
    pub closed spec fn spec_max_active(&self) -> usize {
        self.max_active
    }

    pub closed spec fn spec_active(&self) -> usize {
        self.active
    }

    pub closed spec fn spec_idle(&self) -> Seq<Session<C>> {
        self.idle@
    }

    /// The pool's invariant: outstanding plus idle sessions never exceed
    /// the bound, and every idle session is fit for reuse.
    pub open spec fn spec_wf(&self) -> bool {
        &&& self.spec_active() + self.spec_idle().len() <= self.spec_max_active()
        &&& forall|i: int|
            0 <= i < self.spec_idle().len() ==> (#[trigger] self.spec_idle()[i]).spec_can_pooled()
    }

    /// An empty pool under the default bound.
    pub fn new() -> (r: Self)
        ensures
            r.spec_wf(),
            r.spec_max_active() == DEFAULT_SIZE_MAX_ACTIVE_SESSIONS,
            r.spec_active() == 0,
            r.spec_idle() == Seq::<Session<C>>::empty(),
    {
        Self { max_active: DEFAULT_SIZE_MAX_ACTIVE_SESSIONS, active: 0, idle: Vec::new() }
    }

    /// This pool with another bound; meaningful before sessions are
    /// outstanding.
    pub fn with_max_active_sessions(self, size: usize) -> (r: Self)
        requires
            self.spec_active() + self.spec_idle().len() <= size,
            self.spec_wf(),
        ensures
            r.spec_wf(),
            r.spec_max_active() == size,
            r.spec_active() == self.spec_active(),
            r.spec_idle() == self.spec_idle(),
    {
        let mut p = self;
        p.max_active = size;
        p
    }

    /// Decides one lend request. At the bound nothing is lent and the
    /// state is unchanged: the caller waits for a return. Otherwise a
    /// slot is taken: the most recently pooled idle session is reused,
    /// or, with none idle, the caller must create a session for the
    /// reserved slot.
    pub fn try_acquire(&mut self) -> (r: LendOutcome<C>)
        requires
            old(self).spec_wf(),
        ensures
            final(self).spec_wf(),
            final(self).spec_max_active() == old(self).spec_max_active(),
            old(self).spec_active() == old(self).spec_max_active() ==> (r is AtCapacity
                && final(self).spec_active() == old(self).spec_active()
                && final(self).spec_idle() == old(self).spec_idle()),
            old(self).spec_active() < old(self).spec_max_active() && old(self).spec_idle().len()
                > 0 ==> (r matches LendOutcome::Reuse(s) && s == old(self).spec_idle().last()
                && s.spec_can_pooled()
                && final(self).spec_idle() == old(self).spec_idle().drop_last()
                && final(self).spec_active() == old(self).spec_active() + 1),
            old(self).spec_active() < old(self).spec_max_active() && old(self).spec_idle().len()
                == 0 ==> (r is MustCreate && final(self).spec_active() == old(self).spec_active()
                + 1 && final(self).spec_idle() == old(self).spec_idle()),
    {
        if self.active >= self.max_active {
            return LendOutcome::AtCapacity;
        }
        self.active = self.active + 1;
        match self.idle.pop() {
            Some(s) => LendOutcome::Reuse(s),
            None => LendOutcome::MustCreate,
        }
    }

    /// Releases a slot that was reserved for a session creation that
    /// failed.
    pub fn cancel_pending(&mut self)
        requires
            old(self).spec_wf(),
            old(self).spec_active() > 0,
        ensures
            final(self).spec_wf(),
            final(self).spec_max_active() == old(self).spec_max_active(),
            final(self).spec_active() == old(self).spec_active() - 1,
            final(self).spec_idle() == old(self).spec_idle(),
    {
        self.active = self.active - 1;
    }

    /// Takes a lease back. The health flag is read exactly here, once: a
    /// still-poolable session returns to the idle set; one the server
    /// discarded is never pooled again, and its identifier is handed
    /// back so the caller can delete the remote session.
    pub fn return_session(&mut self, s: Session<C>) -> (r: Option<String>)
        requires
            old(self).spec_wf(),
            old(self).spec_active() > 0,
        ensures
            final(self).spec_wf(),
            final(self).spec_max_active() == old(self).spec_max_active(),
            final(self).spec_active() == old(self).spec_active() - 1,
            s.spec_can_pooled() ==> (r is None
                && final(self).spec_idle() == old(self).spec_idle().push(s)),
            !s.spec_can_pooled() ==> (r matches Some(id) && id@ == s.spec_id()
                && final(self).spec_idle() == old(self).spec_idle()),
    {
        self.active = self.active - 1;
        if s.can_pooled() {
            self.idle.push(s);
            None
        } else {
            Some(s.into_id())
        }
    }
}

/// A session the server has discarded is never among a well-formed
/// pool's idle sessions: no later lend can hand it out again.
pub proof fn lemma_unpoolable_session_never_idle<C: Client>(pool: SessionPool<C>, s: Session<C>)
    requires
        pool.spec_wf(),
        !s.spec_can_pooled(),
    ensures
        forall|i: int| 0 <= i < pool.spec_idle().len() ==> pool.spec_idle()[i] != s,
{
}

/// A lend is refused exactly at the bound, so no sequence of lends puts
/// more than the configured maximum out at once.
pub proof fn lemma_outstanding_bounded<C: Client>(pool: SessionPool<C>)
    requires
        pool.spec_wf(),
    ensures
        pool.spec_active() <= pool.spec_max_active(),
{
}

} // verus!
