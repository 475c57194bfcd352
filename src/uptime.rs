//! Monotonic system uptime read from a latched capture counter.
use vstd::prelude::*;
use crate::capture::{compose, latched, latched_read, CaptureCounter};

verus! {

/// The clock that feeds the uptime counter, in hertz.
pub const APB_FREQUENCY: u32 = 80_000_000;

/// The uptime counter's tick rate, in ticks per second.
pub const TICKS_PER_SECOND: u32 = 16_000_000;

/// An instant, in ticks of the uptime counter since it was started.
#[derive(Debug, Clone, Copy, PartialEq, Eq, Structural)]
pub struct TickInstant {
    ticks: u64,
}

impl TickInstant {
    /// The ticks since the counter was started.
    pub closed spec fn view_ticks(self) -> u64 {
        self.ticks
    }

    /// The instant `ticks` ticks after the counter was started.
    pub fn from_ticks(ticks: u64) -> (r: TickInstant)
        ensures
            r.view_ticks() == ticks,
    {
        TickInstant { ticks }
    }

    /// The ticks since the counter was started.
    pub fn ticks(&self) -> (r: u64)
        ensures
            r == self.view_ticks(),
    {
        self.ticks
    }
}

/// What a raw read yields: the counter's capture as last read, which is not
/// below the one before the read.
pub open spec fn raw_read_post<C: CaptureCounter>(before: C, after: C, ticks: u64) -> bool {
    ticks == latched(after) && latched(after) >= latched(before)
}

/// The latched-read protocol, as a raw read from `before` to `after` that
/// yields `ticks` ran it: a capture was requested before the first low-half
/// read of the call; the following low-half polls, at least one and at most
/// the divider plus one, stopped at the first that differed from that first
/// read, and only a stuck low half spends the whole budget; the result joins
/// the high half to the last low half read, and it is no older than the
/// request when the low half changed.
pub open spec fn latch_protocol_post<C: CaptureCounter>(before: C, after: C, ticks: u64) -> bool {
    let h0 = before.lo_history().len();
    let h = after.lo_history();
    let polls = h.len() - h0 - 1;
    &&& after.request_at() == h0
    &&& after.requested() == before.free_running()
    &&& 1 <= polls <= before.divider_value() + 1
    &&& h.subrange(0, h0 as int) == before.lo_history()
    &&& forall|k: int| 1 <= k < polls ==> #[trigger] h[h0 + k] == h[h0 as int]
    &&& h[h0 + polls] == h[h0 as int] ==> polls == before.divider_value() + 1
    &&& h[h0 + polls] != h[h0 as int] ==> ticks >= before.free_running()
    &&& ticks == compose(after.latched_hi(), h[h0 + polls])
}

/// Provides time since system start.
pub struct SysUptime<C> {
    counter: C,
}

impl<C: CaptureCounter> SysUptime<C> {
    /// The counter this uptime source reads.
    pub closed spec fn counter(&self) -> C {
        self.counter
    }

    /// Configures `counter` to count at [`TICKS_PER_SECOND`] from the
    /// [`APB_FREQUENCY`] clock and starts it.
    pub fn time_init(counter: C) -> (r: Self)
        ensures
            r.counter().divider_value() == APB_FREQUENCY / TICKS_PER_SECOND,
            r.counter().counting(),
            latched(r.counter()) >= latched(counter),
    {
        let mut counter = counter;
        counter.configure((APB_FREQUENCY / TICKS_PER_SECOND) as u16);
        SysUptime { counter }
    }

    /// The counter this uptime source reads.
    pub fn counter_ref(&self) -> (r: &C)
        ensures
            *r == self.counter(),
    {
        &self.counter
    }

    /// Gives the counter back.
    pub fn release(self) -> (r: C)
        ensures
            r == self.counter(),
    {
        self.counter
    }

    /// The raw tick count since system start. It never fails.
    pub fn try_now_raw(&mut self) -> (r: Result<u64, ()>)
        ensures
            r matches Ok(t) && raw_read_post(old(self).counter(), final(self).counter(), t)
                && latch_protocol_post(old(self).counter(), final(self).counter(), t),
            final(self).counter().divider_value() == old(self).counter().divider_value(),
            final(self).counter().counting() == old(self).counter().counting(),
    {
        let read = latched_read(&mut self.counter);
        Ok(read.ticks)
    }

    /// The instant since system start. It never fails.
    pub fn try_now(&mut self) -> (r: Result<TickInstant, ()>)
        ensures
            r matches Ok(t) && raw_read_post(
                old(self).counter(),
                final(self).counter(),
                t.view_ticks(),
            ) && latch_protocol_post(old(self).counter(), final(self).counter(), t.view_ticks()),
            final(self).counter().divider_value() == old(self).counter().divider_value(),
            final(self).counter().counting() == old(self).counter().counting(),
    {
        match self.try_now_raw() {
            Ok(ticks) => Ok(TickInstant::from_ticks(ticks)),
            Err(e) => Err(e),
        }
    }

    /// The instant since system start. Deprecated: use [`SysUptime::try_now`].
    pub fn current_time(&mut self) -> (r: TickInstant)
        ensures
            raw_read_post(old(self).counter(), final(self).counter(), r.view_ticks()),
            latch_protocol_post(old(self).counter(), final(self).counter(), r.view_ticks()),
            final(self).counter().divider_value() == old(self).counter().divider_value(),
            final(self).counter().counting() == old(self).counter().counting(),
    {
        match self.try_now() {
            Ok(t) => t,
            Err(_) => TickInstant::from_ticks(0),
        }
    }
}

/// Two raw reads, one after the other, never go back in time.
pub proof fn lemma_reads_monotonic<C: CaptureCounter>(c0: C, c1: C, c2: C, t1: u64, t2: u64)
    requires
        raw_read_post(c0, c1, t1),
        raw_read_post(c1, c2, t2),
    ensures
        t1 <= t2,
{
}

/// A free-running counter wide enough to be read whole in one access.
pub trait WideCounter: Sized {
    /// The counter's value.
    spec fn value(&self) -> u64;

    /// Read the counter. It never goes back.
    fn read(&mut self) -> (r: u64)
        ensures
            r == final(self).value(),
            final(self).value() >= old(self).value(),
    ;
}

/// Time since system start, read directly from a wide free-running counter.
pub struct DirectUptime<W> {
    counter: W,
}

impl<W: WideCounter> DirectUptime<W> {
    /// The counter this uptime source reads.
    pub closed spec fn counter(&self) -> W {
        self.counter
    }

    /// Reads uptime from `counter`.
    pub fn new(counter: W) -> (r: Self)
        ensures
            r.counter() == counter,
    {
        DirectUptime { counter }
    }

    /// The raw tick count since system start. It never fails.
    pub fn try_now_raw(&mut self) -> (r: Result<u64, ()>)
        ensures
            r matches Ok(t) && t == final(self).counter().value() && t >= old(
                self,
            ).counter().value(),
    {
        Ok(self.counter.read())
    }

    /// The instant since system start. It never fails.
    pub fn try_now(&mut self) -> (r: Result<TickInstant, ()>)
        ensures
            r matches Ok(t) && t.view_ticks() == final(self).counter().value() && t.view_ticks()
                >= old(self).counter().value(),
    {
        match self.try_now_raw() {
            Ok(ticks) => Ok(TickInstant::from_ticks(ticks)),
            Err(e) => Err(e),
        }
    }
}

/// Two direct reads, one after the other, never go back in time.
pub proof fn lemma_direct_reads_monotonic<W: WideCounter>(c0: W, c1: W, c2: W, t1: u64, t2: u64)
    requires
        t1 == c1.value() && c1.value() >= c0.value(),
        t2 == c2.value() && c2.value() >= c1.value(),
    ensures
        t1 <= t2,
{
}

} // verus!
