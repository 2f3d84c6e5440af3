//! Wraparound-safe arithmetic on the 16-bit tick clock.
//!
//! The system clock is a `u16` that increments once per hardware tick and
//! wraps modulo 2^16. Elapsed time and deadline comparisons must therefore
//! be computed as modular differences: a direct `now >= deadline` test is
//! wrong exactly at the wraparound boundary. A deadline counts as reached
//! once the modular distance from it is below half the clock range, which
//! is sound for periods below 2^15 ticks.

use vstd::prelude::*;

verus! {

/// Half of the clock range: the due-test threshold.
pub const HALF_RANGE: u16 = 0x8000;

/// Ticks elapsed from `b` to `a` on the wrapping clock: `(a - b) mod 2^16`.
pub open spec fn wrap_diff(a: u16, b: u16) -> int {
    if a >= b {
        a - b
    } else {
        a - b + 0x10000
    }
}

/// `(a + k) mod 2^16`, the clock value `k` ticks after `a`.
pub open spec fn add_wrap(a: u16, k: u16) -> u16 {
    if a + k < 0x10000 {
        (a + k) as u16
    } else {
        (a + k - 0x10000) as u16
    }
}

/// Whether the clock value `now` has reached or passed `target`,
/// wraparound-aware: true iff `target` lies at most half the clock range
/// behind `now`.
pub open spec fn time_reached(now: u16, target: u16) -> bool {
    wrap_diff(now, target) < HALF_RANGE
}

/// Executable modular difference `(a - b) mod 2^16`.
pub fn wrap_diff_u16(a: u16, b: u16) -> (d: u16)
    ensures
        d == wrap_diff(a, b),
{
    if a >= b {
        a - b
    } else {
        (0xFFFF - b) + a + 1
    }
}

/// Executable modular addition `(a + k) mod 2^16`.
pub fn add_wrap_u16(a: u16, k: u16) -> (r: u16)
    ensures
        r == add_wrap(a, k),
{
    if k <= 0xFFFF - a {
        a + k
    } else {
        k - (0xFFFF - a) - 1
    }
}

/// Executable due test: has `now` reached or passed `target`?
pub fn time_reached_u16(now: u16, target: u16) -> (r: bool)
    ensures
        r == time_reached(now, target),
{
    wrap_diff_u16(now, target) < HALF_RANGE
}

/// Law: the clock measures real elapsed ticks. Advancing a snapshot `start`
/// by `k` ticks (with wraparound) yields a clock value whose modular
/// distance from `start` is exactly `k`, even when the addition wraps.
pub proof fn lemma_elapsed_of_advance(start: u16, k: u16)
    ensures
        wrap_diff(add_wrap(start, k), start) == k,
{
}

/// The clock value after `k` single-tick advances from `t`: the tick
/// handler's clock transition, applied `k` times.
pub open spec fn ticks_later(t: u16, k: nat) -> u16
    decreases k,
{
    if k == 0 {
        t
    } else {
        add_wrap(ticks_later(t, (k - 1) as nat), 1)
    }
}

/// Law: the clock is monotonic modulo 2^16. Delivering `k` tick
/// interrupts, each advancing the clock by one with wraparound, lands
/// exactly `k` ticks past the start: any two clock snapshots with `k`
/// ticks between them satisfy `r2 == r1 + k` and `(r2 - r1) mod 2^16
/// == k`; the clock never moves backward except by exact wraparound.
pub proof fn lemma_clock_monotonic(t: u16, k: u16)
    ensures
        ticks_later(t, k as nat) == add_wrap(t, k),
        wrap_diff(ticks_later(t, k as nat), t) == k,
    decreases k,
{
    if k > 0 {
        lemma_clock_monotonic(t, (k - 1) as u16);
    }
    lemma_elapsed_of_advance(t, k);
}

/// Law: a deadline `p` ticks ahead is not judged due at any earlier tick.
/// For a period below half the clock range, every clock value strictly
/// between the scheduling instant and the deadline fails the due test, so
/// a periodic task cannot fire early, wraparound or not.
pub proof fn lemma_not_due_before(t: u16, p: u16, k: u16)
    requires
        0 < p < HALF_RANGE,
        k < p,
    ensures
        !time_reached(add_wrap(t, k), add_wrap(t, p)),
{
}

/// Law: a deadline is judged due at the moment the clock reaches it.
pub proof fn lemma_due_at_deadline(t: u16, p: u16)
    ensures
        time_reached(add_wrap(t, p), add_wrap(t, p)),
{
}

} // verus!
