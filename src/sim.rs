//! A software countdown timer whose clock advances as it is polled or told to.
use vstd::prelude::*;
use crate::capture::{compose, CaptureCounter};
use crate::hw::{Timer, TimerModel};
use crate::uptime::WideCounter;

verus! {

/// A countdown timer kept in memory. Each poll of its interrupt condition lets
/// one microsecond pass; `advance` lets more pass at once. Its reference clock
/// counts every microsecond that passed, running or not.
pub struct SimTimer {
    running: bool,
    auto_reload: bool,
    interrupt_enabled: bool,
    alarm_active: bool,
    interrupt_set: bool,
    load: u64,
    count: u64,
    raised: u64,
    alarms: Ghost<nat>,
    base: Ghost<nat>,
    acked: Ghost<nat>,
    clock: Ghost<nat>,
    polls: Ghost<nat>,
}

impl SimTimer {
    #[verifier::type_invariant]
    closed spec fn inv(&self) -> bool {
        &&& self.base@ <= self.alarms@
        &&& self.acked@ <= self.alarms@
        &&& self.raised == self.alarms@ - self.base@
        &&& self.raised * self.load <= self.count
        &&& self.interrupt_set ==> self.acked@ < self.alarms@
    }

    /// A stopped timer with nothing loaded.
    pub fn new() -> (r: SimTimer)
        ensures
            r.hw() == (TimerModel {
                running: false,
                auto_reload: false,
                interrupt_enabled: false,
                alarm_active: false,
                interrupt_set: false,
                load: 0,
                count: 0,
                alarms: 0,
                base: 0,
                acked: 0,
                until_fire: 0,
                clock: 0,
                polls: 0,
            }),
    {
        SimTimer {
            running: false,
            auto_reload: false,
            interrupt_enabled: false,
            alarm_active: false,
            interrupt_set: false,
            load: 0,
            count: 0,
            raised: 0,
            alarms: Ghost(0),
            base: Ghost(0),
            acked: Ghost(0),
            clock: Ghost(0),
            polls: Ghost(0),
        }
    }

    /// Whether the alarm line is active.
    pub fn alarm_active(&self) -> (r: bool)
        ensures
            r == self.hw().alarm_active,
    {
        self.alarm_active
    }

    /// Whether the loaded value reloads when reached.
    pub fn auto_reload(&self) -> (r: bool)
        ensures
            r == self.hw().auto_reload,
    {
        self.auto_reload
    }

    /// The loaded target value, in microseconds.
    pub fn load(&self) -> (r: u64)
        ensures
            r == self.hw().load,
    {
        self.load
    }

    /// The number of alarms raised in the current counting period.
    pub fn raised(&self) -> (r: u64)
        ensures
            r == self.hw().alarms - self.hw().base,
    {
        proof {
            use_type_invariant(self);
        }
        self.raised
    }

    /// Lets `us` microseconds pass: a running timer counts on, saturating at the
    /// largest count, and raises an alarm when the next deadline is reached (once
    /// per call; a single-shot timer only once per period).
    pub fn advance(&mut self, us: u64)
        ensures
            final(self).hw().running == old(self).hw().running,
            final(self).hw().auto_reload == old(self).hw().auto_reload,
            final(self).hw().interrupt_enabled == old(self).hw().interrupt_enabled,
            final(self).hw().alarm_active == old(self).hw().alarm_active,
            final(self).hw().load == old(self).hw().load,
            final(self).hw().base == old(self).hw().base,
            final(self).hw().acked == old(self).hw().acked,
            final(self).hw().alarms >= old(self).hw().alarms,
            final(self).hw().alarms > old(self).hw().alarms ==> final(self).hw().interrupt_set,
            old(self).hw().interrupt_set ==> final(self).hw().interrupt_set,
            final(self).hw().interrupt_set ==> old(self).hw().interrupt_set
                || final(self).hw().alarms > old(self).hw().alarms,
            final(self).hw().clock == old(self).hw().clock + us,
            final(self).hw().polls == old(self).hw().polls,
            !old(self).hw().running ==> final(self).hw() == (TimerModel {
                clock: final(self).hw().clock,
                ..old(self).hw()
            }),
            old(self).hw().running ==> final(self).hw().count == if old(self).hw().count + us
                > u64::MAX {
                u64::MAX as int
            } else {
                old(self).hw().count + us
            },
            old(self).hw().running && (old(self).hw().auto_reload || old(self).hw().alarms
                == old(self).hw().base) && old(self).hw().alarms - old(self).hw().base
                < u64::MAX && (old(self).hw().alarms - old(self).hw().base + 1)
                * old(self).hw().load <= final(self).hw().count
                ==> final(self).hw().alarms == old(self).hw().alarms + 1,
    {
        proof {
            use_type_invariant(&*self);
        }
        if !self.running {
            *self = SimTimer { clock: Ghost((self.clock@ + us) as nat), ..*self };
            return;
        }
        let count = self.count.saturating_add(us);
        let mut fire = false;
        if (self.auto_reload || self.raised == 0) && self.raised < u64::MAX {
            match (self.raised + 1).checked_mul(self.load) {
                Some(deadline) => {
                    fire = deadline <= count;
                },
                None => {},
            }
        }
        proof {
            assert(self.raised * self.load <= count);
        }
        if fire {
            *self = SimTimer {
                count,
                raised: self.raised + 1,
                alarms: Ghost(self.alarms@ + 1),
                interrupt_set: true,
                clock: Ghost((self.clock@ + us) as nat),
                ..*self
            };
        } else {
            *self = SimTimer { count, clock: Ghost((self.clock@ + us) as nat), ..*self };
        }
    }
}

impl Timer for SimTimer {
    closed spec fn hw(&self) -> TimerModel {
        TimerModel {
            running: self.running,
            auto_reload: self.auto_reload,
            interrupt_enabled: self.interrupt_enabled,
            alarm_active: self.alarm_active,
            interrupt_set: self.interrupt_set,
            load: self.load,
            count: self.count,
            alarms: self.alarms@,
            base: self.base@,
            acked: self.acked@,
            clock: self.clock@,
            polls: self.polls@,
            until_fire: if (self.raised + 1) * self.load > self.count {
                ((self.raised + 1) * self.load - self.count) as nat
            } else {
                0
            },
        }
    }

    fn start(&mut self) {
        proof {
            use_type_invariant(&*self);
        }
        self.running = true;
    }

    fn stop(&mut self) {
        proof {
            use_type_invariant(&*self);
        }
        self.running = false;
    }

    fn reset(&mut self) {
        proof {
            use_type_invariant(&*self);
        }
        *self = SimTimer { count: 0, raised: 0, base: Ghost(self.alarms@), ..*self };
    }

    fn is_running(&self) -> (r: bool) {
        proof {
            use_type_invariant(self);
        }
        self.running
    }

    fn now(&self) -> (r: u64) {
        proof {
            use_type_invariant(self);
        }
        self.count
    }

    fn load_value(&mut self, value: u64) {
        proof {
            use_type_invariant(&*self);
        }
        *self = SimTimer { load: value, raised: 0, base: Ghost(self.alarms@), ..*self };
    }

    fn enable_auto_reload(&mut self, auto_reload: bool) {
        proof {
            use_type_invariant(&*self);
        }
        self.auto_reload = auto_reload;
    }

    fn enable_interrupt(&mut self, state: bool) {
        proof {
            use_type_invariant(&*self);
        }
        self.interrupt_enabled = state;
    }

    fn clear_interrupt(&mut self) {
        proof {
            use_type_invariant(&*self);
        }
        *self = SimTimer { interrupt_set: false, acked: Ghost(self.alarms@), ..*self };
    }

    fn is_interrupt_set(&mut self) -> (r: bool) {
        proof {
            use_type_invariant(&*self);
        }
        self.advance(1);
        proof {
            use_type_invariant(&*self);
        }
        *self = SimTimer { polls: Ghost(self.polls@ + 1), ..*self };
        self.interrupt_set
    }

    fn set_alarm_active(&mut self, state: bool) {
        proof {
            use_type_invariant(&*self);
        }
        self.alarm_active = state;
    }
}

/// Splits `v` into its high and low 32-bit halves.
fn split_ticks(v: u64) -> (r: (u32, u32))
    ensures
        compose(r.0, r.1) == v,
{
    let hi = (v >> 32u64) as u32;
    let lo = v as u32;
    assert((((v >> 32u64) as u32) as u64) * 0x1_0000_0000u64 + ((v as u32) as u64) == v)
        by (bit_vector);
    (hi, lo)
}

/// A capture counter kept in memory. The free-running value advances by one
/// tick at each read of the low half. A requested capture lands after `lag`
/// further reads of the low half, unless the capture is stuck, in which case it
/// never lands.
pub struct SimCounter {
    live: u64,
    hi: u32,
    lo: u32,
    pending: bool,
    pending_value: u64,
    wait: u32,
    lag: u32,
    stuck: bool,
    divider: u16,
    counting: bool,
    requested: Ghost<nat>,
    request_at: Ghost<nat>,
    history: Ghost<Seq<u32>>,
}

impl SimCounter {
    #[verifier::type_invariant]
    closed spec fn inv(&self) -> bool {
        &&& compose(self.hi, self.lo) <= self.live
        &&& self.pending ==> compose(self.hi, self.lo) <= self.pending_value
        &&& self.pending ==> self.pending_value == self.requested@
        &&& self.pending_value <= self.live
    }

    /// A stopped counter at `live` ticks with nothing captured yet.
    pub fn new(live: u64, divider: u16, lag: u32, stuck: bool) -> (r: SimCounter)
        ensures
            r.latched_hi() == 0,
            r.latched_lo() == 0,
            r.divider_value() == divider,
            r.free_running() == live,
            !r.counting(),
            r.lo_history() == Seq::<u32>::empty(),
    {
        SimCounter {
            live,
            hi: 0,
            lo: 0,
            pending: false,
            pending_value: 0,
            wait: 0,
            lag,
            stuck,
            divider,
            counting: false,
            requested: Ghost(0),
            request_at: Ghost(0),
            history: Ghost(Seq::empty()),
        }
    }

    /// The free-running value.
    pub fn live_ticks(&self) -> (r: u64)
        ensures
            r == self.free_running(),
    {
        self.live
    }

    /// Whether the counter was configured and enabled.
    pub fn is_counting(&self) -> (r: bool)
        ensures
            r == self.counting(),
    {
        self.counting
    }

    /// Lets `ticks` ticks pass, saturating at the largest value.
    pub fn advance(&mut self, ticks: u64)
        ensures
            final(self).free_running() == if old(self).free_running() + ticks > u64::MAX {
                u64::MAX as int
            } else {
                old(self).free_running() + ticks
            },
            final(self).latched_hi() == old(self).latched_hi(),
            final(self).latched_lo() == old(self).latched_lo(),
            final(self).divider_value() == old(self).divider_value(),
            final(self).counting() == old(self).counting(),
            final(self).lo_history() == old(self).lo_history(),
    {
        proof {
            use_type_invariant(&*self);
        }
        *self = SimCounter { live: self.live.saturating_add(ticks), ..*self };
    }
}

impl CaptureCounter for SimCounter {
    closed spec fn latched_hi(&self) -> u32 {
        self.hi
    }

    closed spec fn latched_lo(&self) -> u32 {
        self.lo
    }

    closed spec fn divider_value(&self) -> u16 {
        self.divider
    }

    closed spec fn counting(&self) -> bool {
        self.counting
    }

    closed spec fn free_running(&self) -> u64 {
        self.live
    }

    closed spec fn requested(&self) -> nat {
        self.requested@
    }

    closed spec fn request_at(&self) -> nat {
        self.request_at@
    }

    closed spec fn lo_history(&self) -> Seq<u32> {
        self.history@
    }

    fn configure(&mut self, divider: u16) {
        proof {
            use_type_invariant(&*self);
        }
        *self = SimCounter { divider, counting: true, ..*self };
    }

    fn request_capture(&mut self) {
        proof {
            use_type_invariant(&*self);
        }
        let ghost requested = self.live as nat;
        let ghost request_at = self.history@.len();
        if !self.stuck {
            *self = SimCounter {
                pending: true,
                pending_value: self.live,
                wait: self.lag,
                requested: Ghost(requested),
                request_at: Ghost(request_at),
                ..*self
            };
        } else {
            *self = SimCounter {
                pending: false,
                requested: Ghost(requested),
                request_at: Ghost(request_at),
                ..*self
            };
        }
    }

    fn read_lo(&mut self) -> (r: u32) {
        proof {
            use_type_invariant(&*self);
        }
        let live = self.live.saturating_add(1);
        if self.pending && self.wait == 0 {
            let (hi, lo) = split_ticks(self.pending_value);
            let ghost history = self.history@.push(lo);
            *self = SimCounter { live, hi, lo, pending: false, history: Ghost(history), ..*self };
        } else if self.pending {
            let ghost history = self.history@.push(self.lo);
            *self = SimCounter { live, wait: self.wait - 1, history: Ghost(history), ..*self };
        } else {
            let ghost history = self.history@.push(self.lo);
            *self = SimCounter { live, history: Ghost(history), ..*self };
        }
        self.lo
    }

    fn read_hi(&mut self) -> (r: u32) {
        proof {
            use_type_invariant(&*self);
        }
        self.hi
    }

    fn divider(&self) -> (r: u16) {
        self.divider
    }
}

impl WideCounter for SimCounter {
    closed spec fn value(&self) -> u64 {
        self.live
    }

    fn read(&mut self) -> (r: u64) {
        proof {
            use_type_invariant(&*self);
        }
        *self = SimCounter { live: self.live.saturating_add(1), ..*self };
        self.live
    }
}

} // verus!
