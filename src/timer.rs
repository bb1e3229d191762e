//! A single-shot timer whose deferred callback can be cancelled.
//!
//! The timer and the background task that waits out its duration share one
//! `TimerFlag` behind a lock. Every change to the flag goes through the lock,
//! so the two sides see one linear history of `cancel` and elapse events, and
//! the lock's predicate records that the callback has fired at most once.
use std::sync::Arc;
use std::time::Duration;
use vstd::prelude::*;
use vstd::rwlock::{RwLock, RwLockPredicate};

verus! {

/// The state shared between a timer and its background task.
#[derive(Clone, Copy, Debug, PartialEq, Eq, Structural)]
pub struct TimerFlag {
    /// `cancel` has been called.
    pub cancelled: bool,
    /// How many times the callback has been let run.
    pub fires: u8,
}

/// One event in the life of a started timer, in the order the lock saw them.
#[derive(Clone, Copy, Debug, PartialEq, Eq, Structural)]
pub enum TimerEvent {
    /// The owner cancelled the timer.
    Cancel,
    /// The background wait ran out and the task asked whether to fire.
    Elapse,
}

impl TimerFlag {
    pub open spec fn wf(self) -> bool {
        self.fires <= 1
    }

    /// The flag after an event, and whether that event ran the callback.
    pub open spec fn step(self, e: TimerEvent) -> (TimerFlag, bool) {
        match e {
            TimerEvent::Cancel => (TimerFlag { cancelled: true, fires: self.fires }, false),
            TimerEvent::Elapse => {
                if !self.cancelled && self.fires == 0 {
                    (TimerFlag { cancelled: self.cancelled, fires: 1 }, true)
                } else {
                    (self, false)
                }
            },
        }
    }

    /// A fresh flag: not cancelled, never fired.
    pub fn fresh() -> (r: TimerFlag)
        ensures
            r == (TimerFlag { cancelled: false, fires: 0 }),
            r.wf(),
    {
        TimerFlag { cancelled: false, fires: 0 }
    }

    /// Marks the flag cancelled; the fire count is kept.
    pub fn cancel(&mut self)
        requires
            old(self).wf(),
        ensures
            *final(self) == old(self).step(TimerEvent::Cancel).0,
            final(self).cancelled,
            final(self).fires == old(self).fires,
            final(self).wf(),
    {
        self.cancelled = true;
    }

    /// The elapse check: returns whether the callback is to run now, and
    /// records it. It runs only on a flag that is neither cancelled nor fired.
    pub fn try_fire(&mut self) -> (r: bool)
        requires
            old(self).wf(),
        ensures
            (*final(self), r) == old(self).step(TimerEvent::Elapse),
            r == (!old(self).cancelled && old(self).fires == 0),
            final(self).wf(),
    {
        if !self.cancelled && self.fires == 0 {
            self.fires = 1;
            true
        } else {
            false
        }
    }
}

/// The flag after a sequence of events, starting from a fresh flag.
pub open spec fn replay(events: Seq<TimerEvent>) -> TimerFlag
    decreases events.len(),
{
    if events.len() == 0 {
        TimerFlag { cancelled: false, fires: 0 }
    } else {
        replay(events.drop_last()).step(events.last()).0
    }
}

/// How many events of the sequence ran the callback.
pub open spec fn fire_count(events: Seq<TimerEvent>) -> nat
    decreases events.len(),
{
    if events.len() == 0 {
        0
    } else {
        let prev = events.drop_last();
        fire_count(prev) + if replay(prev).step(events.last()).1 { 1nat } else { 0nat }
    }
}

/// The fire count of a history equals the count kept in the flag.
proof fn lemma_fire_count_in_flag(events: Seq<TimerEvent>)
    ensures
        fire_count(events) == replay(events).fires as nat,
        replay(events).wf(),
        replay(events).cancelled <==> exists|i: int| 0 <= i < events.len() && events[i] == TimerEvent::Cancel,
    decreases events.len(),
{
    if events.len() > 0 {
        let prev = events.drop_last();
        lemma_fire_count_in_flag(prev);
        if exists|i: int| 0 <= i < prev.len() && prev[i] == TimerEvent::Cancel {
            let i = choose|i: int| 0 <= i < prev.len() && prev[i] == TimerEvent::Cancel;
            assert(events[i] == TimerEvent::Cancel);
        }
        if replay(events).cancelled && events.last() != TimerEvent::Cancel {
            let i = choose|i: int| 0 <= i < prev.len() && prev[i] == TimerEvent::Cancel;
            assert(events[i] == TimerEvent::Cancel);
        }
        if events.last() == TimerEvent::Cancel {
            assert(events[events.len() - 1] == TimerEvent::Cancel);
        }
        if exists|i: int| 0 <= i < events.len() && events[i] == TimerEvent::Cancel {
            let i = choose|i: int| 0 <= i < events.len() && events[i] == TimerEvent::Cancel;
            if i < events.len() - 1 {
                assert(prev[i] == TimerEvent::Cancel);
            }
        }
    }
}

/// The callback runs at most once, whatever the events and their order.
pub proof fn lemma_fires_at_most_once(events: Seq<TimerEvent>)
    ensures
        fire_count(events) <= 1,
{
    lemma_fire_count_in_flag(events);
}

/// A timer cancelled before its wait runs out never runs the callback: when
/// every elapse in the history comes after some cancel, nothing fires.
/// "Before" is the order in which the lock took the two calls: a cancel that
/// races the end of the wait counts as whichever the lock took first, so it
/// either prevents the callback or comes after its one run.
pub proof fn lemma_cancel_first_never_fires(events: Seq<TimerEvent>)
    requires
        forall|j: int|
            0 <= j < events.len() && #[trigger] events[j] == TimerEvent::Elapse ==> exists|i: int|
                0 <= i < j && events[i] == TimerEvent::Cancel,
    ensures
        fire_count(events) == 0,
    decreases events.len(),
{
    if events.len() > 0 {
        let prev = events.drop_last();
        assert forall|j: int|
            0 <= j < prev.len() && #[trigger] prev[j] == TimerEvent::Elapse implies exists|i: int|
                0 <= i < j && prev[i] == TimerEvent::Cancel by {
            assert(events[j] == TimerEvent::Elapse);
            let i = choose|i: int| 0 <= i < j && events[i] == TimerEvent::Cancel;
            assert(prev[i] == TimerEvent::Cancel);
        }
        lemma_cancel_first_never_fires(prev);
        lemma_fire_count_in_flag(prev);
        if events.last() == TimerEvent::Elapse {
            let j = events.len() - 1;
            assert(events[j] == TimerEvent::Elapse);
            let i = choose|i: int| 0 <= i < j && events[i] == TimerEvent::Cancel;
            assert(prev[i] == TimerEvent::Cancel);
        }
    }
}

/// A timer whose wait runs out before any cancel runs the callback exactly
/// once, whatever comes after.
pub proof fn lemma_elapse_first_fires_once(events: Seq<TimerEvent>, j: int)
    requires
        0 <= j < events.len(),
        events[j] == TimerEvent::Elapse,
        forall|i: int| 0 <= i < j ==> events[i] != TimerEvent::Cancel,
    ensures
        fire_count(events) == 1,
    decreases events.len(),
{
    let prev = events.drop_last();
    lemma_fire_count_in_flag(events);
    lemma_fire_count_in_flag(prev);
    if j == events.len() - 1 {
        if exists|i: int| 0 <= i < prev.len() && prev[i] == TimerEvent::Cancel {
            let i = choose|i: int| 0 <= i < prev.len() && prev[i] == TimerEvent::Cancel;
            assert(events[i] == prev[i]);
        }
        assert(events.last() == TimerEvent::Elapse);
    } else {
        assert(prev[j] == TimerEvent::Elapse);
        assert forall|i: int| 0 <= i < j implies prev[i] != TimerEvent::Cancel by {
            assert(events[i] == prev[i]);
        }
        lemma_elapse_first_fires_once(prev, j);
    }
}

/// The lock predicate on the shared flag: the callback has fired at most once.
pub struct FiredAtMostOnce;

impl RwLockPredicate<TimerFlag> for FiredAtMostOnce {
    open spec fn inv(self, v: TimerFlag) -> bool {
        v.wf()
    }
}

/// Relies on `Arc::clone`: the new handle refers to the same shared value.
#[verifier::external_body]
fn share<T>(a: &Arc<T>) -> (r: Arc<T>)
    ensures
        r == *a,
{
    Arc::clone(a)
}

/// A timer that runs `func` once `dur` has passed since `start`, unless it
/// was cancelled first.
pub struct Timer<F> {
    dur: Duration,
    func: F,
    started: bool,
    flag: Arc<RwLock<TimerFlag, FiredAtMostOnce>>,
}

/// The background side of a started timer: it holds the shared flag and,
/// once the wait is over, asks whether the callback is to run.
pub struct TimerTask {
    flag: Arc<RwLock<TimerFlag, FiredAtMostOnce>>,
}

impl<F> Timer<F> {
    pub closed spec fn dur(&self) -> Duration {
        self.dur
    }

    pub closed spec fn func(&self) -> F {
        self.func
    }

    pub closed spec fn is_started(&self) -> bool {
        self.started
    }

    /// The task and the timer hold the same shared flag.
    pub closed spec fn shares_flag_with(&self, task: TimerTask) -> bool {
        self.flag == task.flag
    }

    /// Creates a timer that is not started yet: nothing runs until `start`.
    pub fn new(dur: Duration, func: F) -> (t: Timer<F>)
        ensures
            t.dur() == dur,
            t.func() == func,
            !t.is_started(),
    {
        let flag = Arc::new(RwLock::new(TimerFlag::fresh(), Ghost(FiredAtMostOnce)));
        Timer { dur, func, started: false, flag }
    }

    /// How long the background task waits before it asks to fire.
    pub fn duration(&self) -> (r: Duration)
        ensures
            r == self.dur(),
    {
        self.dur
    }

    /// The callback that runs when the wait is over.
    pub fn callback(&self) -> (r: &F)
        ensures
            *r == self.func(),
    {
        &self.func
    }

    /// Starts the timer: hands out the one task that waits and then asks to
    /// fire. A timer starts once; a second call returns `None` and changes
    /// nothing.
    pub fn start(&mut self) -> (r: Option<TimerTask>)
        ensures
            r is Some <==> !old(self).is_started(),
            r matches Some(task) ==> final(self).shares_flag_with(task),
            final(self).is_started(),
            final(self).dur() == old(self).dur(),
            final(self).func() == old(self).func(),
    {
        if self.started {
            None
        } else {
            self.started = true;
            Some(TimerTask { flag: share(&self.flag) })
        }
    }

    /// Cancels the timer and consumes it. Under the lock the shared flag is
    /// marked cancelled, so an elapse check that comes after it does not fire.
    /// Returns the flag as it was left, which tells whether the callback had
    /// already run.
    pub fn cancel(self) -> (r: TimerFlag)
        ensures
            r.cancelled,
            r.wf(),
    {
        let (mut v, handle) = self.flag.acquire_write();
        v.cancel();
        handle.release_write(v);
        v
    }
}

impl TimerTask {
    /// Called once the wait is over: under the lock, decides whether the
    /// callback runs now (neither cancelled nor fired before) and records it.
    pub fn elapse(&self) -> (r: bool) {
        let (mut v, handle) = self.flag.acquire_write();
        let r = v.try_fire();
        handle.release_write(v);
        r
    }
}

} // verus!
