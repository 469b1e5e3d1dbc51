//! Many requests on one pool: a model of the requests that still wait for a
//! handle, those in flight and those that are done, and what holds of every
//! schedule of them.

use crate::pool::{Acquire, PoolEvent, PoolView};
use vstd::prelude::*;

verus! {

/// The requests that share a pool. Those in flight are the pool's loans.
pub ghost struct Fleet<H> {
    pub pool: PoolView<H>,
    /// The requests that have not got a handle yet.
    pub waiting: nat,
    /// The requests that have handed their handle back.
    pub completed: nat,
}

impl<H> Fleet<H> {
    /// `requests` requests before a fresh pool with the given cap.
    pub open spec fn start(maximum: nat, requests: nat) -> Self {
        Fleet { pool: PoolView::empty(maximum), waiting: requests, completed: 0 }
    }

    /// The number of requests that hold a handle.
    pub open spec fn in_flight(self) -> int {
        self.pool.on_loan()
    }

    /// The number of requests, whatever their state.
    pub open spec fn total(self) -> int {
        self.waiting + self.in_flight() + self.completed
    }

    /// The moves still to be made: two for each waiting request, one for each
    /// request in flight.
    pub open spec fn work_left(self) -> int {
        2 * self.waiting + self.in_flight()
    }

    /// Whether the event moves a request on: a waiting request asks and gets a
    /// handle, or a request in flight hands its handle back.
    pub open spec fn moves(self, event: PoolEvent<H>) -> bool {
        match event {
            PoolEvent::Acquire => self.waiting > 0 && self.pool.acquired() != Acquire::<H>::Wait,
            PoolEvent::Release(_) => self.in_flight() > 0,
        }
    }

    /// The state after one event. An event that moves no request on changes
    /// nothing: a request that is told to wait keeps waiting.
    pub open spec fn step(self, event: PoolEvent<H>) -> Self {
        if !self.moves(event) {
            self
        } else {
            match event {
                PoolEvent::Acquire => Fleet {
                    pool: self.pool.after_acquire(),
                    waiting: (self.waiting - 1) as nat,
                    ..self
                },
                PoolEvent::Release(handle) => Fleet {
                    pool: self.pool.after_release(handle),
                    completed: self.completed + 1,
                    ..self
                },
            }
        }
    }

    /// The state after the events of a schedule, one after another.
    pub open spec fn run(self, schedule: Seq<PoolEvent<H>>) -> Self
        decreases schedule.len(),
    {
        if schedule.len() == 0 {
            self
        } else {
            self.step(schedule[0]).run(schedule.subrange(1, schedule.len() as int))
        }
    }

    /// Whether every event of the schedule moves a request on.
    pub open spec fn never_idles(self, schedule: Seq<PoolEvent<H>>) -> bool
        decreases schedule.len(),
    {
        schedule.len() > 0 ==> self.moves(schedule[0]) && self.step(schedule[0]).never_idles(
            schedule.subrange(1, schedule.len() as int),
        )
    }
}

/// Under every schedule, at every moment, no more handles exist than the cap
/// allows, no more requests are in flight than handles exist, and no request
/// is lost.
pub proof fn lemma_fleet_stays_bounded<H>(fleet: Fleet<H>, schedule: Seq<PoolEvent<H>>)
    requires
        fleet.pool.wf(),
    ensures
        fleet.run(schedule).pool.wf(),
        fleet.run(schedule).pool.maximum == fleet.pool.maximum,
        fleet.run(schedule).pool.allocated <= fleet.pool.maximum,
        0 <= fleet.run(schedule).in_flight() <= fleet.pool.maximum,
        fleet.run(schedule).total() == fleet.total(),
        fleet.run(schedule).completed >= fleet.completed,
    decreases schedule.len(),
{
    if schedule.len() > 0 {
        lemma_fleet_stays_bounded(
            fleet.step(schedule[0]),
            schedule.subrange(1, schedule.len() as int),
        );
    }
}

/// With a cap above zero the requests never block one another for good:
/// while a request is in flight it can hand its handle back, and while none
/// is, or fewer than the cap, a waiting request gets a handle.
pub proof fn lemma_fleet_never_stuck<H>(fleet: Fleet<H>, handle: H)
    requires
        fleet.pool.wf(),
        fleet.pool.maximum >= 1,
    ensures
        fleet.in_flight() > 0 ==> fleet.moves(PoolEvent::Release(handle)),
        fleet.waiting > 0 && fleet.in_flight() < fleet.pool.maximum ==> fleet.moves(
            PoolEvent::Acquire,
        ),
        fleet.work_left() > 0 ==> fleet.moves(PoolEvent::Acquire) || fleet.moves(
            PoolEvent::Release(handle),
        ),
{
}

/// A schedule that never idles is no longer than the work that is left, and
/// does as much of it as it is long. When it has done all of it, every
/// request has completed and every handle is back in the pool.
pub proof fn lemma_fleet_completes<H>(fleet: Fleet<H>, schedule: Seq<PoolEvent<H>>)
    requires
        fleet.pool.wf(),
        fleet.never_idles(schedule),
    ensures
        schedule.len() <= fleet.work_left(),
        fleet.run(schedule).work_left() == fleet.work_left() - schedule.len(),
        schedule.len() == fleet.work_left() ==> {
            &&& fleet.run(schedule).waiting == 0
            &&& fleet.run(schedule).in_flight() == 0
            &&& fleet.run(schedule).completed == fleet.total()
            &&& fleet.run(schedule).pool.idle.len() == fleet.run(schedule).pool.allocated
        },
    decreases schedule.len(),
{
    if schedule.len() > 0 {
        let next = fleet.step(schedule[0]);
        lemma_fleet_completes(next, schedule.subrange(1, schedule.len() as int));
    }
    lemma_fleet_stays_bounded(fleet, schedule);
}

/// With a cap above zero, a schedule that never idles and has left work
/// undone can go on without idling: by a waiting request that gets a handle,
/// or by a request in flight that hands one back.
pub proof fn lemma_fleet_can_go_on<H>(fleet: Fleet<H>, schedule: Seq<PoolEvent<H>>, handle: H)
    requires
        fleet.pool.wf(),
        fleet.pool.maximum >= 1,
        fleet.never_idles(schedule),
        schedule.len() < fleet.work_left(),
    ensures
        fleet.never_idles(schedule.push(PoolEvent::Acquire)) || fleet.never_idles(
            schedule.push(PoolEvent::Release(handle)),
        ),
    decreases schedule.len(),
{
    let asks = schedule.push(PoolEvent::Acquire);
    let hands_back = schedule.push(PoolEvent::Release(handle));
    if schedule.len() == 0 {
        lemma_fleet_never_stuck(fleet, handle);
        assert(fleet.step(asks[0]).never_idles(asks.subrange(1, asks.len() as int)));
        assert(fleet.step(hands_back[0]).never_idles(
            hands_back.subrange(1, hands_back.len() as int),
        ));
    } else {
        let next = fleet.step(schedule[0]);
        let rest = schedule.subrange(1, schedule.len() as int);
        lemma_fleet_can_go_on(next, rest, handle);
        assert(asks.subrange(1, asks.len() as int) =~= rest.push(PoolEvent::Acquire));
        assert(hands_back.subrange(1, hands_back.len() as int) =~= rest.push(
            PoolEvent::Release(handle),
        ));
    }
}

/// Any number of requests before a fresh pool, however far the number is
/// above the cap: a schedule that never idles and makes two moves for each
/// request completes them all, with no more handles than the cap allows and
/// every one of them idle again.
pub proof fn lemma_all_requests_complete<H>(
    maximum: nat,
    requests: nat,
    schedule: Seq<PoolEvent<H>>,
)
    requires
        Fleet::<H>::start(maximum, requests).never_idles(schedule),
        schedule.len() == 2 * requests,
    ensures
        Fleet::<H>::start(maximum, requests).run(schedule).completed == requests,
        Fleet::<H>::start(maximum, requests).run(schedule).waiting == 0,
        Fleet::<H>::start(maximum, requests).run(schedule).in_flight() == 0,
        Fleet::<H>::start(maximum, requests).run(schedule).pool.allocated <= maximum,
{
    let fleet = Fleet::<H>::start(maximum, requests);
    lemma_fleet_completes(fleet, schedule);
    lemma_fleet_stays_bounded(fleet, schedule);
}

} // verus!
