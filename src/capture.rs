//! Reading a 64-bit tick count from a counter latched into two 32-bit halves.
use vstd::prelude::*;

verus! {

/// The 64-bit value made of a high and a low 32-bit half.
pub open spec fn compose(hi: u32, lo: u32) -> nat {
    hi as nat * 0x1_0000_0000 + lo as nat
}

/// `(hi << 32) | lo`.
pub fn compose_ticks(hi: u32, lo: u32) -> (r: u64)
    ensures
        r == compose(hi, lo),
{
    let r: u64 = (hi as u64) << 32u64 | lo as u64;
    assert(((hi as u64) << 32u64 | lo as u64) == (hi as u64) * 0x1_0000_0000u64 + lo as u64)
        by (bit_vector);
    r
}

/// The last value captured by `c`.
pub open spec fn latched<C: CaptureCounter>(c: C) -> nat {
    compose(c.latched_hi(), c.latched_lo())
}

/// A free-running counter whose value is copied into a readable pair of 32-bit
/// registers on request. The copy lands some time after the request, both halves
/// at once, and the copied value never goes back. The model keeps every value
/// read from the low half, in order, and where that record stood at the last
/// capture request.
pub trait CaptureCounter: Sized {
    /// The high half of the last captured value.
    spec fn latched_hi(&self) -> u32;

    /// The low half of the last captured value.
    spec fn latched_lo(&self) -> u32;

    /// The configured clock divider.
    spec fn divider_value(&self) -> u16;

    /// Whether the counter counts up, enabled, reloading at the largest span.
    spec fn counting(&self) -> bool;

    /// The free-running value.
    spec fn free_running(&self) -> u64;

    /// The free-running value when a capture was last requested.
    spec fn requested(&self) -> nat;

    /// How many low-half reads were made before the last capture request.
    spec fn request_at(&self) -> nat;

    /// Every value read from the low half, in order.
    spec fn lo_history(&self) -> Seq<u32>;

    /// Configure the counter to count up at the clock divided by `divider`,
    /// reloading at the largest span, and enable it.
    fn configure(&mut self, divider: u16)
        ensures
            final(self).divider_value() == divider,
            final(self).counting(),
            final(self).lo_history() == old(self).lo_history(),
            final(self).free_running() >= old(self).free_running(),
            compose(final(self).latched_hi(), final(self).latched_lo()) >= compose(
                old(self).latched_hi(),
                old(self).latched_lo(),
            ),
    ;

    /// Ask for the counter to be captured.
    fn request_capture(&mut self)
        ensures
            final(self).requested() == old(self).free_running(),
            final(self).request_at() == old(self).lo_history().len(),
            final(self).lo_history() == old(self).lo_history(),
            final(self).divider_value() == old(self).divider_value(),
            final(self).counting() == old(self).counting(),
            final(self).free_running() >= old(self).free_running(),
            compose(final(self).latched_hi(), final(self).latched_lo()) >= compose(
                old(self).latched_hi(),
                old(self).latched_lo(),
            ),
    ;

    /// Read the low half of the captured value. A change of the low half is
    /// the landing of a capture at least as recent as the last request.
    fn read_lo(&mut self) -> (r: u32)
        ensures
            r == final(self).latched_lo(),
            final(self).lo_history() == old(self).lo_history().push(r),
            final(self).requested() == old(self).requested(),
            final(self).request_at() == old(self).request_at(),
            final(self).divider_value() == old(self).divider_value(),
            final(self).counting() == old(self).counting(),
            final(self).free_running() >= old(self).free_running(),
            compose(final(self).latched_hi(), final(self).latched_lo()) >= compose(
                old(self).latched_hi(),
                old(self).latched_lo(),
            ),
            final(self).latched_lo() != old(self).latched_lo() ==> compose(
                final(self).latched_hi(),
                final(self).latched_lo(),
            ) >= final(self).requested(),
    ;

    /// Read the high half of the captured value.
    fn read_hi(&mut self) -> (r: u32)
        ensures
            r == final(self).latched_hi(),
            final(self).latched_lo() == old(self).latched_lo(),
            final(self).lo_history() == old(self).lo_history(),
            final(self).requested() == old(self).requested(),
            final(self).request_at() == old(self).request_at(),
            final(self).divider_value() == old(self).divider_value(),
            final(self).counting() == old(self).counting(),
            final(self).free_running() >= old(self).free_running(),
            compose(final(self).latched_hi(), final(self).latched_lo()) >= compose(
                old(self).latched_hi(),
                old(self).latched_lo(),
            ),
    ;

    /// Read the configured clock divider.
    fn divider(&self) -> (r: u16)
        ensures
            r == self.divider_value(),
    ;
}

/// The outcome of a latched read.
#[derive(Debug, Clone, Copy, PartialEq, Eq, Structural)]
pub struct LatchedRead {
    /// The ticks read.
    pub ticks: u64,
    /// How many times the low half was polled after the first reading.
    pub polls: u32,
    /// Whether the low half was seen to change, that is the capture landed.
    pub settled: bool,
}

/// Requests a capture, then polls the low half until it differs from its value
/// just after the request, or until the divider's value in retries is spent;
/// then reads the high half. The result is the captured pair as last read.
///
/// Of the low-half reads this call makes, the first follows the request; the
/// following `polls` reads stop at the first that differs from it, or after
/// `divider + 1` of them. A read that saw the low half change holds a capture at
/// least as recent as the request.
pub fn latched_read<C: CaptureCounter>(counter: &mut C) -> (r: LatchedRead)
    ensures
        ({
            let h0 = old(counter).lo_history().len();
            let h = final(counter).lo_history();
            &&& final(counter).request_at() == h0
            &&& final(counter).requested() == old(counter).free_running()
            &&& h.len() == h0 + 1 + r.polls
            &&& h.subrange(0, h0 as int) == old(counter).lo_history()
            &&& forall|k: int| 1 <= k < r.polls ==> #[trigger] h[h0 + k] == h[h0 as int]
            &&& r.settled == (h[h0 + r.polls] != h[h0 as int])
            &&& r.ticks == compose(final(counter).latched_hi(), h[h0 + r.polls])
        }),
        r.ticks == latched(*final(counter)),
        r.ticks >= latched(*old(counter)),
        r.settled ==> r.ticks >= old(counter).free_running(),
        r.polls >= 1,
        r.polls <= old(counter).divider_value() as nat + 1,
        !r.settled ==> r.polls == old(counter).divider_value() as nat + 1,
        final(counter).divider_value() == old(counter).divider_value(),
        final(counter).counting() == old(counter).counting(),
{
    let ghost h0 = counter.lo_history().len();
    counter.request_capture();
    let lo_initial = counter.read_lo();
    let mut div: u16 = counter.divider();
    let mut polls: u32 = 0;
    let ghost start = latched(*counter);
    let mut lo: u32 = lo_initial;
    loop
        invariant_except_break
            polls + div == old(counter).divider_value(),
            forall|k: int| 1 <= k <= polls ==> #[trigger] counter.lo_history()[h0 + k] == lo_initial,
        invariant
            counter.divider_value() == old(counter).divider_value(),
            counter.counting() == old(counter).counting(),
            counter.request_at() == h0,
            counter.requested() == old(counter).free_running(),
            counter.lo_history().len() == h0 + 1 + polls,
            counter.lo_history().subrange(0, h0 as int) == old(counter).lo_history(),
            counter.lo_history()[h0 as int] == lo_initial,
            latched(*counter) >= start,
            start >= latched(*old(counter)),
            counter.latched_lo() == lo_initial || latched(*counter) >= counter.requested(),
        ensures
            lo == counter.latched_lo(),
            lo == counter.lo_history()[h0 + polls],
            polls >= 1,
            polls <= old(counter).divider_value() as nat + 1,
            lo == lo_initial ==> polls == old(counter).divider_value() as nat + 1,
            forall|k: int| 1 <= k < polls ==> #[trigger] counter.lo_history()[h0 + k] == lo_initial,
        decreases div,
    {
        lo = counter.read_lo();
        polls = polls + 1;
        if lo != lo_initial || div == 0 {
            break;
        }
        div = div - 1;
    }
    let hi = counter.read_hi();
    let ticks = compose_ticks(hi, lo);
    LatchedRead { ticks, polls, settled: lo != lo_initial }
}

} // verus!
