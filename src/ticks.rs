use vstd::prelude::*;

verus! {

/// Ticks in one second at the timer's fixed 1 kHz rate.
pub const TICKS_PER_SECOND: u32 = 1000;

/// Ticks counted from `since` to `now` on a counter that wraps at 2^32.
pub open spec fn ticks_between(since: u32, now: u32) -> int {
    (now - since) % 0x1_0000_0000
}

/// Whether at least `interval` ticks have passed since `last`.
pub open spec fn is_due(last: u32, now: u32, interval: u32) -> bool {
    ticks_between(last, now) >= interval
}

/// `t` moved on by `shift` ticks on the wrapping counter.
pub open spec fn shifted(t: u32, shift: u32) -> u32 {
    ((t + shift) % 0x1_0000_0000) as u32
}

/// The counter's value after one timer tick: one more, wrapping to zero after the largest value.
pub fn next_tick(ticks: u32) -> (r: u32)
    ensures
        r == shifted(ticks, 1),
{
    ticks.wrapping_add(1)
}

/// Ticks from `since` to `now`, by modular subtraction so that a wrap of the counter in
/// between is counted right.
pub fn elapsed(since: u32, now: u32) -> (r: u32)
    ensures
        r == ticks_between(since, now),
{
    now.wrapping_sub(since)
}

/// Whole seconds in a tick count.
pub fn seconds(ticks: u32) -> (r: u32)
    ensures
        r == ticks / 1000,
{
    ticks / TICKS_PER_SECOND
}

/// Gating depends only on the distance between the two tick values: moving both by the
/// same amount, across the wrap of the counter or not, gives the same decision.
pub proof fn lemma_wraparound(last: u32, now: u32, shift: u32, interval: u32)
    ensures
        is_due(last, now, interval) == is_due(shifted(last, shift), shifted(now, shift), interval),
        ticks_between(last, now) == ticks_between(shifted(last, shift), shifted(now, shift)),
{
    let m: int = 0x1_0000_0000;
    let a: int = last as int + shift as int;
    let b: int = now as int + shift as int;
    assert(a % m == if a >= m { a - m } else { a });
    assert(b % m == if b >= m { b - m } else { b });
    let d: int = now as int - last as int;
    assert((d + m) % m == d % m);
    assert((d - m) % m == d % m);
}

} // verus!
