//! A blocking one-shot delay built on a countdown timer.
use vstd::prelude::*;
use crate::hw::{Timer, TimerModel};

verus! {

/// The microseconds that a delay of `ns` nanoseconds waits: whole microseconds,
/// rounded up, so that the wait is never shorter than asked.
pub open spec fn nanos_to_micros(ns: u32) -> u64 {
    ((ns as nat + 999) / 1000) as u64
}

/// The microseconds in `ms` milliseconds.
pub open spec fn millis_to_micros(ms: u32) -> u64 {
    (ms as u64 * 1000) as u64
}

/// The state a delay of `us` microseconds leaves the timer in: stopped, single
/// shot, interrupt cleared, loaded with `us`, with at least `us` counted since the
/// delay reset it, and at least `us` passed on the reference clock during the
/// delay.
pub open spec fn delay_done(before: TimerModel, after: TimerModel, us: u64) -> bool {
    &&& !after.running
    &&& !after.auto_reload
    &&& !after.interrupt_set
    &&& after.load == us
    &&& after.count >= us
    &&& after.clock >= before.clock + us
    &&& after.acked == after.alarms
    &&& after.interrupt_enabled == before.interrupt_enabled
    &&& after.alarm_active == before.alarm_active
}

/// A one-shot timer.
pub struct OneShotTimer<T> {
    inner: T,
}

impl<T: Timer> OneShotTimer<T> {
    /// The timer this one-shot timer drives.
    pub closed spec fn timer(&self) -> T {
        self.inner
    }

    /// Construct a new instance of [`OneShotTimer`].
    pub fn new(inner: T) -> (r: Self)
        ensures
            r.timer() == inner,
    {
        Self { inner }
    }

    /// The timer this one-shot timer drives.
    pub fn inner(&self) -> (r: &T)
        ensures
            *r == self.timer(),
    {
        &self.inner
    }

    /// Give back the timer this one-shot timer drives.
    pub fn into_inner(self) -> (r: T)
        ensures
            r == self.timer(),
    {
        self.inner
    }

    /// Pauses execution for *at least* `ms` milliseconds.
    pub fn delay_millis(&mut self, ms: u32)
        ensures
            delay_done(old(self).timer().hw(), final(self).timer().hw(), millis_to_micros(ms)),
    {
        self.delay(ms as u64 * 1000);
    }

    /// Pauses execution for *at least* `us` microseconds.
    pub fn delay_micros(&mut self, us: u32)
        ensures
            delay_done(old(self).timer().hw(), final(self).timer().hw(), us as u64),
    {
        self.delay(us as u64);
    }

    /// Pauses execution for *at least* `ns` nanoseconds, in whole microseconds
    /// rounded up.
    pub fn delay_nanos(&mut self, ns: u32)
        ensures
            delay_done(old(self).timer().hw(), final(self).timer().hw(), nanos_to_micros(ns)),
    {
        self.delay((ns as u64 + 999) / 1000);
    }

    /// Pauses execution until the timer has counted at least `us` microseconds.
    fn delay(&mut self, us: u64)
        ensures
            delay_done(old(self).timer().hw(), final(self).timer().hw(), us),
    {
        if self.inner.is_running() {
            self.inner.stop();
        }
        self.inner.clear_interrupt();
        self.inner.reset();
        self.inner.enable_auto_reload(false);
        self.inner.load_value(us);
        self.inner.start();

        let ghost armed = self.inner.hw();
        while !self.inner.is_interrupt_set()
            invariant
                self.inner.hw().running,
                !self.inner.hw().auto_reload,
                self.inner.hw().load == us,
                self.inner.hw().alarms == self.inner.hw().base,
                self.inner.hw().base == armed.base,
                self.inner.hw().acked == armed.acked,
                armed.acked == armed.base,
                self.inner.hw().interrupt_enabled == armed.interrupt_enabled,
                self.inner.hw().alarm_active == armed.alarm_active,
                armed.count == 0,
                self.inner.hw().count <= self.inner.hw().clock - armed.clock,
                self.inner.hw().clock >= armed.clock,
                armed.clock >= old(self).timer().hw().clock,
            decreases self.inner.hw().until_fire,
        {
        }
        proof {
            let h = self.inner.hw();
            assert(h.alarms - h.base >= 1);
            assert((h.alarms - h.base) * h.load >= h.load) by (nonlinear_arith)
                requires
                    h.alarms - h.base >= 1,
            ;
        }
        self.inner.stop();
        self.inner.clear_interrupt();
    }
}

/// A delay of `ns` nanoseconds is a delay of the whole microseconds in `ns`,
/// rounded up: it leaves the timer just as `delay_micros` of that many
/// microseconds does, a wait never shorter than `ns` nanoseconds.
pub proof fn lemma_nanos_as_micros(ns: u32, us: u32, before: TimerModel, after: TimerModel)
    requires
        us as nat * 1000 >= ns,
        us as nat * 1000 < ns + 1000,
    ensures
        nanos_to_micros(ns) == us,
        delay_done(before, after, nanos_to_micros(ns)) == delay_done(before, after, us as u64),
{
}

/// A delay of `ms` milliseconds is the delay of `1000 * ms` microseconds.
pub proof fn lemma_millis_as_micros(ms: u32)
    ensures
        millis_to_micros(ms) == ms * 1000,
{
}

} // verus!
