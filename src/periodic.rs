//! A non-blocking periodic countdown built on a countdown timer.
use vstd::prelude::*;
use crate::error::Error;
use crate::hw::{Timer, TimerModel};

verus! {

/// The countdown has not finished yet.
#[derive(Debug, Clone, Copy, PartialEq, Eq, Structural)]
pub struct WouldBlock;

/// What `start(timeout)` leaves behind: a running, auto-reloading timer loaded
/// with `timeout`, counting from zero, with no alarm pending and no event reported
/// yet. Starting does not wait: it polls nothing and lets no time pass.
pub open spec fn start_post(
    before: TimerModel,
    after: TimerModel,
    events: nat,
    timeout: u64,
) -> bool {
    &&& after.running
    &&& after.auto_reload
    &&& after.load == timeout
    &&& after.count == 0
    &&& !after.interrupt_set
    &&& after.base == after.alarms
    &&& after.acked == after.alarms
    &&& events == 0
    &&& after.clock == before.clock
    &&& after.polls == before.polls
    &&& after.interrupt_enabled == before.interrupt_enabled
    &&& after.alarm_active == before.alarm_active
}

/// What one `wait()` does: it polls the interrupt condition exactly once, and a
/// poll that would block brings a due alarm closer. When it reports readiness it has consumed the pending
/// alarm, set the alarm line active and counted one more event, and, once the
/// timer was started, it has by then counted a full period for each event
/// reported since the start. Otherwise no alarm was pending and nothing but the
/// passing of time changed. Readiness is reported whenever the interrupt
/// condition was set before the call, and otherwise only after a new alarm.
pub open spec fn wait_post(
    before: TimerModel,
    events_before: nat,
    after: TimerModel,
    events_after: nat,
    started: bool,
    r: Result<(), WouldBlock>,
) -> bool {
    &&& after.running == before.running
    &&& after.auto_reload == before.auto_reload
    &&& after.load == before.load
    &&& after.base == before.base
    &&& after.count >= before.count
    &&& after.interrupt_enabled == before.interrupt_enabled
    &&& !after.interrupt_set
    &&& after.alarms >= before.alarms
    &&& after.polls == before.polls + 1
    &&& (r is Err ==> after.alarms == before.alarms)
    &&& (r is Err && before.next_alarm_due() ==> after.until_fire < before.until_fire)
    &&& (!before.running ==> after.alarms == before.alarms && after.count == before.count)
    &&& (before.interrupt_set ==> r is Ok)
    &&& (r is Ok ==> before.interrupt_set || after.alarms > before.alarms)
    &&& match r {
        Ok(()) => {
            &&& events_after == events_before + 1
            &&& after.alarm_active
            &&& after.acked == after.alarms
            &&& started ==> events_after * after.load <= after.count
        },
        Err(_) => {
            &&& events_after == events_before
            &&& after.alarm_active == before.alarm_active
            &&& after.acked == before.acked
        },
    }
}

/// What `cancel()` does: a running timer is stopped, and a stopped one is left
/// as it is and reported inactive.
pub open spec fn cancel_post(before: TimerModel, after: TimerModel, r: Result<(), Error>) -> bool {
    if before.running {
        r == Ok::<(), Error>(()) && after == before.with_running(false)
    } else {
        r == Err::<(), Error>(Error::TimerInactive) && after == before
    }
}

/// A periodic timer.
pub struct PeriodicTimer<T> {
    inner: T,
    events: Ghost<nat>,
    started: Ghost<bool>,
}

impl<T: Timer> PeriodicTimer<T> {
    /// The timer this periodic timer drives.
    pub closed spec fn timer(&self) -> T {
        self.inner
    }

    /// The number of times `wait()` reported readiness since the last start.
    pub closed spec fn events(&self) -> nat {
        self.events@
    }

    /// Whether a count down was started through this periodic timer.
    pub closed spec fn started(&self) -> bool {
        self.started@
    }

    /// Once started, every event reported since the start stands for an
    /// acknowledged alarm of the current period.
    pub closed spec fn wf(&self) -> bool {
        self.started@ ==> self.inner.hw().base + self.events@ <= self.inner.hw().acked
    }

    /// Construct a new instance of [`PeriodicTimer`].
    pub fn new(inner: T) -> (r: Self)
        ensures
            r.timer() == inner,
            r.events() == 0,
            !r.started(),
            r.wf(),
    {
        Self { inner, events: Ghost(0), started: Ghost(false) }
    }

    /// The timer this periodic timer drives.
    pub fn inner(&self) -> (r: &T)
        ensures
            *r == self.timer(),
    {
        &self.inner
    }

    /// Give back the timer this periodic timer drives.
    pub fn into_inner(self) -> (r: T)
        ensures
            r == self.timer(),
    {
        self.inner
    }

    /// Start a new count down of `timeout` microseconds, which repeats.
    pub fn start(&mut self, timeout: u64)
        ensures
            start_post(old(self).timer().hw(), final(self).timer().hw(), final(self).events(), timeout),
            final(self).started(),
            final(self).wf(),
    {
        if self.inner.is_running() {
            self.inner.stop();
        }
        self.inner.clear_interrupt();
        self.inner.reset();
        self.inner.enable_auto_reload(true);
        self.inner.load_value(timeout);
        self.inner.start();
        self.events = Ghost(0);
        self.started = Ghost(true);
    }

    /// "Wait" until the count down finishes without blocking.
    pub fn wait(&mut self) -> (r: Result<(), WouldBlock>)
        requires
            old(self).wf(),
        ensures
            wait_post(
                old(self).timer().hw(),
                old(self).events(),
                final(self).timer().hw(),
                final(self).events(),
                old(self).started(),
                r,
            ),
            final(self).started() == old(self).started(),
            final(self).wf(),
    {
        if self.inner.is_interrupt_set() {
            self.inner.clear_interrupt();
            self.inner.set_alarm_active(true);
            self.events = Ghost(self.events@ + 1);
            proof {
                if self.started@ {
                    let h = self.inner.hw();
                    let e = self.events@;
                    assert(e <= h.alarms - h.base);
                    assert(e * h.load <= (h.alarms - h.base) * h.load) by (nonlinear_arith)
                        requires
                            e <= h.alarms - h.base,
                    ;
                }
            }
            Ok(())
        } else {
            Err(WouldBlock)
        }
    }

    /// Tries to cancel the active count down.
    pub fn cancel(&mut self) -> (r: Result<(), Error>)
        requires
            old(self).wf(),
        ensures
            cancel_post(old(self).timer().hw(), final(self).timer().hw(), r),
            final(self).events() == old(self).events(),
            final(self).started() == old(self).started(),
            final(self).wf(),
    {
        if !self.inner.is_running() {
            return Err(Error::TimerInactive);
        }
        self.inner.stop();
        Ok(())
    }
}

/// After `start(timeout)`, the first `wait()` that reports readiness does so
/// only once the timer has counted at least `timeout`.
pub proof fn lemma_first_ready_after_timeout(
    h0: TimerModel,
    h1: TimerModel,
    e1: nat,
    h2: TimerModel,
    e2: nat,
    timeout: u64,
    r: Result<(), WouldBlock>,
)
    requires
        start_post(h0, h1, e1, timeout),
        wait_post(h1, e1, h2, e2, true, r),
        r is Ok,
    ensures
        e2 == 1,
        h2.count >= timeout,
{
    assert(h2.load == timeout);
    assert(1 * h2.load <= h2.count) by (nonlinear_arith)
        requires
            e2 * h2.load <= h2.count,
            e2 == 1,
    ;
}

/// Once started, every readiness that `wait()` reports comes one full period
/// after the one before it at the earliest: the `k`-th comes once the timer has
/// counted `k` periods.
pub proof fn lemma_ready_cadence(
    h1: TimerModel,
    e1: nat,
    h2: TimerModel,
    e2: nat,
    r: Result<(), WouldBlock>,
)
    requires
        wait_post(h1, e1, h2, e2, true, r),
        r is Ok,
    ensures
        e2 == e1 + 1,
        h2.count >= e2 * h2.load,
        h2.load == h1.load,
{
}

/// Cancelling a running timer succeeds and stops it; cancelling it again
/// straight away reports it inactive and changes nothing.
pub proof fn lemma_cancel_twice(
    h0: TimerModel,
    h1: TimerModel,
    h2: TimerModel,
    r1: Result<(), Error>,
    r2: Result<(), Error>,
)
    requires
        h0.running,
        cancel_post(h0, h1, r1),
        cancel_post(h1, h2, r2),
    ensures
        r1 == Ok::<(), Error>(()),
        !h1.running,
        r2 == Err::<(), Error>(Error::TimerInactive),
        h2 == h1,
{
}

/// Starting an already armed timer restarts it: the count goes back to zero,
/// the new period is loaded and no event of the old period is left to report.
pub proof fn lemma_restart(h0: TimerModel, h1: TimerModel, e1: nat, timeout: u64)
    requires
        h0.running,
        start_post(h0, h1, e1, timeout),
    ensures
        h1.running,
        h1.count == 0,
        h1.load == timeout,
        !h1.interrupt_set,
        e1 == 0,
{
}

/// A cancelled timer raises no new alarm: once cancelled with no alarm
/// pending, `wait()` reports that it would block.
pub proof fn lemma_no_ready_after_cancel(
    h0: TimerModel,
    h1: TimerModel,
    e1: nat,
    h2: TimerModel,
    e2: nat,
    started: bool,
    r1: Result<(), Error>,
    r2: Result<(), WouldBlock>,
)
    requires
        cancel_post(h0, h1, r1),
        !h1.interrupt_set,
        wait_post(h1, e1, h2, e2, started, r2),
    ensures
        r2 is Err,
        e2 == e1,
{
    assert(!h1.running);
    assert(h2.alarms == h1.alarms);
}

/// While its next alarm is due, a timer cannot keep `wait()` blocking: a run of
/// calls that all report that they would block is no longer than the bound on
/// the polls left before that alarm when the run began.
pub proof fn lemma_would_block_bounded(
    hs: Seq<TimerModel>,
    es: Seq<nat>,
    rs: Seq<Result<(), WouldBlock>>,
    started: bool,
)
    requires
        hs.len() == rs.len() + 1,
        es.len() == rs.len() + 1,
        hs[0].next_alarm_due(),
        forall|i: int| 0 <= i < rs.len() ==> (#[trigger] rs[i]) is Err,
        forall|i: int|
            0 <= i < rs.len() ==> wait_post(hs[i], es[i], hs[i + 1], es[i + 1], started, #[trigger] rs[i]),
    ensures
        rs.len() <= hs[0].until_fire,
    decreases rs.len(),
{
    if rs.len() > 0 {
        let n = rs.len() - 1;
        assert(wait_post(hs[n], es[n], hs[n + 1], es[n + 1], started, rs[n]));
        lemma_would_block_bounded(hs.drop_last(), es.drop_last(), rs.drop_last(), started);
        lemma_due_stays(hs, es, rs, started, n);
    }
}

/// Along a run of blocking `wait()` calls that starts with a due alarm, the alarm
/// stays due and the bound on polls left falls by at least one per call.
proof fn lemma_due_stays(
    hs: Seq<TimerModel>,
    es: Seq<nat>,
    rs: Seq<Result<(), WouldBlock>>,
    started: bool,
    n: int,
)
    requires
        0 <= n <= rs.len(),
        hs.len() == rs.len() + 1,
        es.len() == rs.len() + 1,
        hs[0].next_alarm_due(),
        forall|i: int| 0 <= i < rs.len() ==> (#[trigger] rs[i]) is Err,
        forall|i: int|
            0 <= i < rs.len() ==> wait_post(hs[i], es[i], hs[i + 1], es[i + 1], started, #[trigger] rs[i]),
    ensures
        hs[n].next_alarm_due(),
        hs[n].until_fire + n <= hs[0].until_fire,
    decreases n,
{
    if n > 0 {
        lemma_due_stays(hs, es, rs, started, n - 1);
        assert(rs[n - 1] is Err);
        assert(wait_post(hs[n - 1], es[n - 1], hs[n], es[n], started, rs[n - 1]));
    }
}

} // verus!
