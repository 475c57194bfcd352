//! The hardware countdown-timer capability and its abstract model.
use vstd::prelude::*;

verus! {

/// What a countdown timer holds, as seen by its users.
///
/// `count` is the number of microseconds counted since the last reset. `alarms`
/// counts every alarm the timer ever raised; `base` is the value of `alarms` when
/// the counting period last began (reset or a new load) and `acked` its value
/// when the interrupt condition was last cleared. `clock` is a reference clock
/// in microseconds that no operation resets: the counter never counts faster
/// than it. `polls` counts the polls of the interrupt condition.
pub struct TimerModel {
    pub running: bool,
    pub auto_reload: bool,
    pub interrupt_enabled: bool,
    pub alarm_active: bool,
    pub interrupt_set: bool,
    pub load: u64,
    pub count: u64,
    pub alarms: nat,
    pub base: nat,
    pub acked: nat,
    /// A bound on the polls left before the next alarm is seen.
    pub until_fire: nat,
    pub clock: nat,
    pub polls: nat,
}

impl TimerModel {
    /// Facts every timer keeps: no alarm comes before its deadline, and a set
    /// interrupt condition stands for an alarm not yet acknowledged.
    pub open spec fn wf(self) -> bool {
        &&& self.base <= self.alarms
        &&& self.acked <= self.alarms
        &&& (self.alarms - self.base) * self.load <= self.count
        &&& self.interrupt_set ==> self.acked < self.alarms
    }

    /// The same timer with only its running state changed.
    pub open spec fn with_running(self, running: bool) -> TimerModel {
        TimerModel { running, ..self }
    }

    /// Whether a next alarm is due: the timer runs, it is its first alarm of the
    /// period or the loaded value reloads, and its deadline fits the counter.
    pub open spec fn next_alarm_due(self) -> bool {
        &&& self.running
        &&& (self.alarms == self.base || self.auto_reload)
        &&& self.alarms - self.base < u64::MAX
        &&& (self.alarms - self.base + 1) * self.load <= u64::MAX
    }
}

/// Functionality provided by any timer peripheral. Its state is well formed
/// after every operation.
pub trait Timer: Sized {
    /// The state of the peripheral.
    spec fn hw(&self) -> TimerModel;

    /// Start the timer.
    fn start(&mut self)
        ensures
            final(self).hw().wf(),
            final(self).hw() == old(self).hw().with_running(true),
    ;

    /// Stop the timer.
    fn stop(&mut self)
        ensures
            final(self).hw().wf(),
            final(self).hw() == old(self).hw().with_running(false),
    ;

    /// Reset the timer value to 0.
    fn reset(&mut self)
        ensures
            final(self).hw().wf(),
            final(self).hw() == (TimerModel {
                count: 0,
                base: old(self).hw().alarms,
                until_fire: final(self).hw().until_fire,
                ..old(self).hw()
            }),
    ;

    /// Is the timer running?
    fn is_running(&self) -> (r: bool)
        ensures
            self.hw().wf(),
            r == self.hw().running,
    ;

    /// The current timer value, in microseconds.
    fn now(&self) -> (r: u64)
        ensures
            self.hw().wf(),
            r == self.hw().count,
    ;

    /// Load a target value, in microseconds, into the timer.
    fn load_value(&mut self, value: u64)
        ensures
            final(self).hw().wf(),
            final(self).hw() == (TimerModel {
                load: value,
                base: old(self).hw().alarms,
                until_fire: final(self).hw().until_fire,
                ..old(self).hw()
            }),
    ;

    /// Enable auto reload of the loaded value.
    fn enable_auto_reload(&mut self, auto_reload: bool)
        ensures
            final(self).hw().wf(),
            final(self).hw() == (TimerModel { auto_reload, ..old(self).hw() }),
    ;

    /// Enable or disable the timer's interrupt.
    fn enable_interrupt(&mut self, state: bool)
        ensures
            final(self).hw().wf(),
            final(self).hw() == (TimerModel { interrupt_enabled: state, ..old(self).hw() }),
    ;

    /// Clear the timer's interrupt.
    fn clear_interrupt(&mut self)
        ensures
            final(self).hw().wf(),
            final(self).hw() == (TimerModel {
                interrupt_set: false,
                acked: old(self).hw().alarms,
                ..old(self).hw()
            }),
    ;

    /// Has the timer triggered? Time passes while the peripheral is polled: a
    /// running timer counts on and may raise alarms, a stopped one keeps still.
    fn is_interrupt_set(&mut self) -> (r: bool)
        ensures
            final(self).hw().wf(),
            r == final(self).hw().interrupt_set,
            old(self).hw().interrupt_set ==> r,
            final(self).hw().running == old(self).hw().running,
            final(self).hw().auto_reload == old(self).hw().auto_reload,
            final(self).hw().interrupt_enabled == old(self).hw().interrupt_enabled,
            final(self).hw().alarm_active == old(self).hw().alarm_active,
            final(self).hw().load == old(self).hw().load,
            final(self).hw().base == old(self).hw().base,
            final(self).hw().acked == old(self).hw().acked,
            final(self).hw().alarms >= old(self).hw().alarms,
            final(self).hw().alarms > old(self).hw().alarms ==> r,
            final(self).hw().count >= old(self).hw().count,
            final(self).hw().polls == old(self).hw().polls + 1,
            final(self).hw().clock >= old(self).hw().clock,
            final(self).hw().count - old(self).hw().count
                <= final(self).hw().clock - old(self).hw().clock,
            r ==> old(self).hw().interrupt_set || final(self).hw().alarms > old(self).hw().alarms,
            !old(self).hw().running ==> final(self).hw() == (TimerModel {
                clock: final(self).hw().clock,
                polls: final(self).hw().polls,
                ..old(self).hw()
            }),
            old(self).hw().next_alarm_due() && !r ==> final(self).hw().until_fire < old(
                self,
            ).hw().until_fire,
    ;

    /// Set the alarm line active or inactive.
    fn set_alarm_active(&mut self, state: bool)
        ensures
            final(self).hw().wf(),
            final(self).hw() == (TimerModel { alarm_active: state, ..old(self).hw() }),
    ;
}

} // verus!
