//! The client pool: a queue of idle handles, the number of handles created so
//! far, and the cap on that number.

use std::collections::VecDeque;
use vstd::prelude::*;

verus! {

/// What one attempt to take a handle from the pool came to.
#[derive(Debug)]
pub enum Acquire<H> {
    /// An idle handle was taken from the queue.
    Reuse(H),
    /// The pool has counted one more handle; the caller creates it and later
    /// releases it like any other.
    Allocate,
    /// No handle is idle and the cap is reached: wait for a release, then ask
    /// again.
    Wait,
}

/// One thing that happens to a pool: a caller asks for a handle, or hands one
/// back.
pub enum PoolEvent<H> {
    Acquire,
    Release(H),
}

/// The mathematical state of a pool.
pub ghost struct PoolView<H> {
    /// The idle handles, front first.
    pub idle: Seq<H>,
    /// How many handles exist, idle or on loan.
    pub allocated: nat,
    /// The cap on `allocated`.
    pub maximum: nat,
}

impl<H> PoolView<H> {
    /// The pool's invariant: every idle handle is an allocated one, and no
    /// more handles exist than the cap allows.
    pub open spec fn wf(self) -> bool {
        self.idle.len() <= self.allocated <= self.maximum
    }

    /// The number of handles held by in-flight requests.
    pub open spec fn on_loan(self) -> int {
        self.allocated - self.idle.len()
    }

    /// The number of further requests that can get a handle without waiting.
    pub open spec fn available(self) -> int {
        self.maximum - self.on_loan()
    }

    /// The state of a fresh pool with the given cap.
    pub open spec fn empty(maximum: nat) -> Self {
        PoolView { idle: Seq::empty(), allocated: 0, maximum }
    }

    /// What an attempt to take a handle returns.
    pub open spec fn acquired(self) -> Acquire<H> {
        if self.idle.len() > 0 {
            Acquire::Reuse(self.idle[0])
        } else if self.allocated < self.maximum {
            Acquire::Allocate
        } else {
            Acquire::Wait
        }
    }

    /// The state after an attempt to take a handle.
    pub open spec fn after_acquire(self) -> Self {
        if self.idle.len() > 0 {
            PoolView { idle: self.idle.subrange(1, self.idle.len() as int), ..self }
        } else if self.allocated < self.maximum {
            PoolView { allocated: self.allocated + 1, ..self }
        } else {
            self
        }
    }

    /// The state after a handle on loan is handed back: it becomes the front
    /// of the idle queue.
    pub open spec fn after_release(self, handle: H) -> Self {
        PoolView { idle: seq![handle] + self.idle, ..self }
    }

    /// Whether the event may happen in this state: a release needs a handle
    /// on loan.
    pub open spec fn admits(self, event: PoolEvent<H>) -> bool {
        match event {
            PoolEvent::Acquire => true,
            PoolEvent::Release(_) => self.on_loan() > 0,
        }
    }

    /// The state after one event.
    pub open spec fn step(self, event: PoolEvent<H>) -> Self {
        match event {
            PoolEvent::Acquire => self.after_acquire(),
            PoolEvent::Release(handle) => self.after_release(handle),
        }
    }

    /// Whether the events may happen one after another, starting here.
    pub open spec fn admits_all(self, events: Seq<PoolEvent<H>>) -> bool
        decreases events.len(),
    {
        events.len() > 0 ==> self.admits(events[0]) && self.step(events[0]).admits_all(
            events.subrange(1, events.len() as int),
        )
    }

    /// The state after `count` attempts to take a handle with no release in
    /// between.
    pub open spec fn after_acquires(self, count: nat) -> Self
        decreases count,
    {
        if count == 0 {
            self
        } else {
            self.after_acquire().after_acquires((count - 1) as nat)
        }
    }

    /// The state after the events have happened one after another.
    pub open spec fn run(self, events: Seq<PoolEvent<H>>) -> Self
        decreases events.len(),
    {
        if events.len() == 0 {
            self
        } else {
            self.step(events[0]).run(events.subrange(1, events.len() as int))
        }
    }
}

/// A bounded pool of reusable handles of type `H`.
pub struct ClientPool<H> {
    idle: VecDeque<H>,
    allocated: usize,
    maximum: usize,
}

impl<H> View for ClientPool<H> {
    type V = PoolView<H>;

    closed spec fn view(&self) -> PoolView<H> {
        PoolView {
            idle: self.idle@,
            allocated: self.allocated as nat,
            maximum: self.maximum as nat,
        }
    }
}

impl<H> ClientPool<H> {
    #[verifier::type_invariant]
    spec fn inv(self) -> bool {
        self@.wf()
    }

    /// A pool that may hold up to `maximum` handles and holds none yet.
    pub fn new(maximum: usize) -> (pool: Self)
        ensures
            pool@ == PoolView::<H>::empty(maximum as nat),
            pool@.wf(),
    {
        ClientPool { idle: VecDeque::new(), allocated: 0, maximum }
    }

    /// Takes the front idle handle if there is one; else counts a new handle
    /// if the cap allows one more; else tells the caller to wait.
    pub fn acquire(&mut self) -> (got: Acquire<H>)
        ensures
            got == old(self)@.acquired(),
            final(self)@ == old(self)@.after_acquire(),
            old(self)@.wf(),
            final(self)@.wf(),
    {
        proof {
            use_type_invariant(&*self);
        }
        let mut idle: VecDeque<H> = VecDeque::new();
        std::mem::swap(&mut idle, &mut self.idle);
        let front = idle.pop_front();
        self.idle = idle;
        match front {
            Some(handle) => Acquire::Reuse(handle),
            None => {
                if self.allocated < self.maximum {
                    self.allocated = self.allocated + 1;
                    Acquire::Allocate
                } else {
                    Acquire::Wait
                }
            },
        }
    }

    /// Hands a handle on loan back: it becomes the front of the idle queue.
    /// The caller then wakes one waiter, if any waits.
    pub fn release(&mut self, handle: H)
        requires
            old(self)@.on_loan() > 0,
        ensures
            final(self)@ == old(self)@.after_release(handle),
            old(self)@.wf(),
            final(self)@.wf(),
    {
        proof {
            use_type_invariant(&*self);
        }
        let mut idle: VecDeque<H> = VecDeque::new();
        std::mem::swap(&mut idle, &mut self.idle);
        idle.push_front(handle);
        self.idle = idle;
    }
}

impl<H> ClientPool<H> {
    /// The number of idle handles.
    pub fn idle_count(&self) -> (count: usize)
        ensures
            count == self@.idle.len(),
    {
        self.idle.len()
    }

    /// The number of handles that exist, idle or on loan.
    pub fn allocated(&self) -> (count: usize)
        ensures
            count == self@.allocated,
    {
        self.allocated
    }

    /// The cap on the number of handles.
    pub fn maximum(&self) -> (cap: usize)
        ensures
            cap == self@.maximum,
    {
        self.maximum
    }

    /// The number of handles held by in-flight requests.
    pub fn on_loan(&self) -> (count: usize)
        ensures
            count == self@.on_loan(),
            self@.wf(),
    {
        proof {
            use_type_invariant(self);
        }
        self.allocated - self.idle.len()
    }
}

/// Whatever is asked of a pool, and however handles on loan come back, no
/// more handles exist than the cap allows, no more are on loan than exist,
/// and the cap stays what it was.
pub proof fn lemma_run_keeps_bound<H>(start: PoolView<H>, events: Seq<PoolEvent<H>>)
    requires
        start.wf(),
        start.admits_all(events),
    ensures
        start.run(events).wf(),
        start.run(events).maximum == start.maximum,
        0 <= start.run(events).on_loan() <= start.maximum,
    decreases events.len(),
{
    if events.len() > 0 {
        lemma_run_keeps_bound(start.step(events[0]), events.subrange(1, events.len() as int));
    }
}

/// From a pool with no idle handle, `count` callers that ask at once, none
/// handing back, make the number of handles grow by `count` or up to the cap,
/// whichever is less: the callers beyond the cap all wait.
pub proof fn lemma_acquires_stop_at_cap<H>(start: PoolView<H>, count: nat)
    requires
        start.wf(),
        start.idle.len() == 0,
    ensures
        start.after_acquires(count).idle.len() == 0,
        start.after_acquires(count).maximum == start.maximum,
        start.after_acquires(count).allocated == if start.allocated + count <= start.maximum {
            start.allocated + count
        } else {
            start.maximum
        },
        start.allocated + count >= start.maximum ==> start.after_acquires(count).acquired()
            == Acquire::<H>::Wait,
    decreases count,
{
    if count > 0 {
        lemma_acquires_stop_at_cap(start.after_acquire(), (count - 1) as nat);
    }
}

/// A caller is told to wait exactly when nothing is available, and then every
/// handle the cap allows is on loan: with a cap above zero some request holds
/// a handle and will hand it back.
pub proof fn lemma_wait_means_all_on_loan<H>(pool: PoolView<H>)
    requires
        pool.wf(),
    ensures
        pool.acquired() == Acquire::<H>::Wait <==> pool.available() == 0,
        pool.acquired() == Acquire::<H>::Wait ==> pool.on_loan() == pool.maximum
            && pool.after_acquire() == pool,
        pool.acquired() != Acquire::<H>::Wait ==> pool.after_acquire().on_loan() == pool.on_loan()
            + 1,
{
}

/// Right after a release the next caller gets the handle that came back,
/// without waiting, and the pool is then as it was before the release.
pub proof fn lemma_release_unblocks<H>(pool: PoolView<H>, handle: H)
    requires
        pool.wf(),
        pool.on_loan() > 0,
    ensures
        pool.after_release(handle).wf(),
        pool.after_release(handle).acquired() == Acquire::Reuse(handle),
        pool.after_release(handle).after_acquire() == pool,
{
    let back = pool.after_release(handle);
    assert(back.idle.subrange(1, back.idle.len() as int) =~= pool.idle);
}

/// A request that got a handle and hands one back, whatever came of the
/// request, leaks nothing: as many handles are on loan and as many are
/// available as before it asked, and the next caller gets a handle at once.
/// Where it took an idle handle, as many are idle as before.
pub proof fn lemma_dispatch_leaks_nothing<H>(pool: PoolView<H>, handle: H)
    requires
        pool.wf(),
        pool.acquired() != Acquire::<H>::Wait,
    ensures
        pool.after_acquire().on_loan() > 0,
        pool.after_acquire().after_release(handle).wf(),
        pool.after_acquire().after_release(handle).on_loan() == pool.on_loan(),
        pool.after_acquire().after_release(handle).available() == pool.available(),
        pool.after_acquire().after_release(handle).maximum == pool.maximum,
        pool.after_acquire().after_release(handle).acquired() == Acquire::Reuse(handle),
        pool.idle.len() > 0 ==> pool.after_acquire().after_release(handle).idle.len()
            == pool.idle.len(),
{
}

} // verus!
