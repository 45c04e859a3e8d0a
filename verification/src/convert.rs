//! From counter ticks to nanoseconds.

use vstd::arithmetic::div_mod::lemma_div_is_ordered;
use vstd::arithmetic::div_mod::lemma_div_multiples_vanish;
use vstd::arithmetic::div_mod::lemma_fundamental_div_mod;
use vstd::arithmetic::div_mod::lemma_hoist_over_denominator;
use vstd::prelude::*;

verus! {

/// The nanoseconds in one second.
pub const NANOS_PER_SEC: u64 = 1_000_000_000;

/// The time that `ticks` ticks of a counter running at `freq` hertz take, in
/// whole nanoseconds: the fraction of a nanosecond is cut off, not rounded.
pub open spec fn to_nanoseconds(freq: nat, ticks: nat) -> nat {
    (ticks * (NANOS_PER_SEC as nat)) / freq
}

/// The whole seconds in `ticks`, in nanoseconds.
pub open spec fn whole_seconds_ns(freq: nat, ticks: nat) -> nat {
    (ticks / freq) * (NANOS_PER_SEC as nat)
}

/// The ticks beyond the last whole second, in nanoseconds.
pub open spec fn sub_second_ns(freq: nat, ticks: nat) -> nat {
    ((ticks % freq) * (NANOS_PER_SEC as nat)) / freq
}

/// Converting whole seconds and the remaining ticks apart loses nothing: the
/// two parts add up to the nanoseconds of the undivided tick count, and the
/// second part stays below one second.
pub proof fn lemma_split_conversion(freq: nat, ticks: nat)
    requires
        freq > 0,
    ensures
        to_nanoseconds(freq, ticks) == whole_seconds_ns(freq, ticks) + sub_second_ns(freq, ticks),
        sub_second_ns(freq, ticks) < NANOS_PER_SEC,
        (ticks % freq) * (NANOS_PER_SEC as nat) < freq * (NANOS_PER_SEC as nat),
{
    let f = freq as int;
    let t = ticks as int;
    let n = NANOS_PER_SEC as int;
    let q = t / f;
    let r = t % f;
    lemma_fundamental_div_mod(t, f);
    assert(0 <= r < f);
    assert(t * n == r * n + (q * n) * f) by (nonlinear_arith)
        requires
            t == f * q + r,
    ;
    lemma_hoist_over_denominator(r * n, q * n, freq);
    assert((r * n) / f + q * n == (t * n) / f);
    assert(r * n < f * n) by (nonlinear_arith)
        requires
            0 <= r < f,
            n > 0,
    ;
    assert((r * n) / f < n) by (nonlinear_arith)
        requires
            0 <= r * n < f * n,
            f > 0,
    ;
}

/// The result is the largest count of nanoseconds that the ticks cover in
/// full: scaled back to ticks it does not pass `ticks`, and one nanosecond
/// more would.
pub proof fn lemma_truncates(freq: nat, ticks: nat)
    requires
        freq > 0,
    ensures
        to_nanoseconds(freq, ticks) * freq <= ticks * (NANOS_PER_SEC as nat),
        ticks * (NANOS_PER_SEC as nat) < (to_nanoseconds(freq, ticks) + 1) * freq,
{
    let f = freq as int;
    let x = (ticks * (NANOS_PER_SEC as nat)) as int;
    lemma_fundamental_div_mod(x, f);
    assert(0 <= x % f < f);
    assert((x / f) * f == f * (x / f)) by (nonlinear_arith);
    assert((x / f + 1) * f == f * (x / f) + f) by (nonlinear_arith);
}

/// As many ticks as the counter makes in one second convert to exactly one
/// second.
pub proof fn lemma_one_second(freq: nat)
    requires
        freq > 0,
    ensures
        to_nanoseconds(freq, freq) == NANOS_PER_SEC,
{
    lemma_div_multiples_vanish(NANOS_PER_SEC as int, freq as int);
}

/// No ticks take no time.
pub proof fn lemma_zero_ticks(freq: nat)
    requires
        freq > 0,
    ensures
        to_nanoseconds(freq, 0) == 0,
{
    assert(0int / (freq as int) == 0) by (nonlinear_arith)
        requires
            freq > 0,
    ;
}

/// More ticks never convert to less time.
pub proof fn lemma_monotonic(freq: nat, earlier: nat, later: nat)
    requires
        freq > 0,
        earlier <= later,
    ensures
        to_nanoseconds(freq, earlier) <= to_nanoseconds(freq, later),
{
    let n = NANOS_PER_SEC as int;
    assert(earlier * n <= later * n) by (nonlinear_arith)
        requires
            earlier <= later,
            n > 0,
    ;
    lemma_div_is_ordered(earlier * n, later * n, freq as int);
}

/// At one gigahertz or more a tick is no longer than a nanosecond, so the
/// nanoseconds never outnumber the ticks: every 64-bit reading converts to a
/// value that fits in 64 bits.
pub proof fn lemma_fits_from_one_gigahertz(freq: nat, ticks: nat)
    requires
        freq >= NANOS_PER_SEC,
    ensures
        to_nanoseconds(freq, ticks) <= ticks,
{
    let f = freq as int;
    let t = ticks as int;
    let n = NANOS_PER_SEC as int;
    assert(t * n <= f * t) by (nonlinear_arith)
        requires
            0 <= t,
            0 < n <= f,
    ;
    lemma_div_is_ordered(t * n, f * t, f);
    lemma_div_multiples_vanish(t, f);
}

} // verus!
