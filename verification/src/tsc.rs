//! The calibration handle: a counter frequency that is known to be usable, and
//! the conversions that rest on it.

use crate::convert::lemma_fits_from_one_gigahertz;
use crate::convert::lemma_monotonic;
use crate::convert::lemma_one_second;
use crate::convert::lemma_split_conversion;
use crate::convert::lemma_zero_ticks;
use crate::convert::to_nanoseconds;
use crate::convert::NANOS_PER_SEC;
use crate::cpuid::cpuid;
use crate::cpuid::resolve_frequency;
use crate::cpuid::resolved_frequency;
use crate::cpuid::CpuidLeaf;
use crate::cpuid::LEAF_BASE_FREQUENCY;
use crate::cpuid::LEAF_FEATURES;
use crate::cpuid::LEAF_POWER;
use crate::cpuid::LEAF_TIMING;
use crate::error::Error;
use vstd::prelude::*;

verus! {

/// A cycle counter's calibration: how many ticks it makes in a second.
///
/// The frequency is never zero. A handle is made once and then only read, so
/// copies of it can be handed around freely.
#[derive(Debug, Clone, Copy)]
pub struct TSC {
    freq: u64,
}

impl TSC {
    #[verifier::type_invariant]
    spec fn ticks_at_all(&self) -> bool {
        self.freq > 0
    }

    /// The ticks per second that this handle stands for.
    pub closed spec fn frequency(&self) -> u64 {
        self.freq
    }

    /// What every handle that the library hands out satisfies: its frequency is
    /// not zero.
    pub open spec fn is_valid(&self) -> bool {
        self.frequency() > 0
    }

    /// The nanoseconds that `ticks` ticks take at this handle's frequency, the
    /// fraction of a nanosecond cut off.
    pub open spec fn nanoseconds(&self, ticks: u64) -> nat {
        to_nanoseconds(self.frequency() as nat, ticks as nat)
    }

    /// Whether the nanoseconds of `ticks` fit in 64 bits.
    pub open spec fn representable(&self, ticks: u64) -> bool {
        self.nanoseconds(ticks) <= u64::MAX
    }

    /// How a handle, or the refusal to make one, follows from what frequency
    /// discovery gave: a failed discovery is passed on, a frequency of zero is
    /// turned down with `CpuidLeafTscFailed`, and every other frequency is held
    /// by the handle.
    pub open spec fn follows_from(made: Result<TSC, Error>, resolved: Result<u64, Error>) -> bool {
        match resolved {
            Ok(freq) => if freq > 0 {
                made matches Ok(t) && t.frequency() == freq
            } else {
                made == Err::<TSC, Error>(Error::CpuidLeafTscFailed)
            },
            Err(e) => made == Err::<TSC, Error>(e),
        }
    }

    /// Asks the processor for the frequency of its cycle counter and makes a
    /// handle of it.
    ///
    /// What the processor answers is not known here. Whatever it is, the
    /// result follows from the frequency that `resolve_frequency` gives for
    /// the four leaves reported, and a handle that comes back is valid.
    pub fn new() -> (r: Result<TSC, Error>)
        ensures
            r matches Ok(t) ==> t.is_valid(),
            exists|features: CpuidLeaf, power: CpuidLeaf, timing: CpuidLeaf, base: CpuidLeaf|
                Self::follows_from(r, resolved_frequency(features, power, timing, base)),
    {
        match Self::cpu_freq() {
            Ok(freq) => Self::from_freq(freq),
            Err(e) => Err(e),
        }
    }

    /// Makes a handle for a counter that runs at `freq` hertz.
    ///
    /// A frequency of zero cannot calibrate anything and is turned down with
    /// `CpuidLeafTscFailed`; every other frequency gives a handle that holds it.
    pub fn from_freq(freq: u64) -> (r: Result<TSC, Error>)
        ensures
            freq > 0 ==> (r matches Ok(t) && t.frequency() == freq && t.is_valid()),
            freq == 0 ==> r == Err::<TSC, Error>(Error::CpuidLeafTscFailed),
            Self::follows_from(r, Ok(freq)),
    {
        if freq == 0 {
            Err(Error::CpuidLeafTscFailed)
        } else {
            Ok(TSC { freq })
        }
    }

    /// Queries the four CPUID leaves that describe the cycle counter and works
    /// out its frequency in hertz.
    ///
    /// The result is what `resolve_frequency` makes of the four leaves that the
    /// processor reported.
    pub fn cpu_freq() -> (r: Result<u64, Error>)
        ensures
            exists|features: CpuidLeaf, power: CpuidLeaf, timing: CpuidLeaf, base: CpuidLeaf|
                r == resolved_frequency(features, power, timing, base),
    {
        let features = cpuid(LEAF_FEATURES);
        let power = cpuid(LEAF_POWER);
        let timing = cpuid(LEAF_TIMING);
        let base = cpuid(LEAF_BASE_FREQUENCY);
        resolve_frequency(features, power, timing, base)
    }

    /// The ticks per second of the counter.
    pub fn get_freq(&self) -> (freq: u64)
        ensures
            freq == self.frequency(),
            freq > 0,
    {
        proof {
            use_type_invariant(self);
        }
        self.freq
    }

    /// Converts the counter reading `tsc` to nanoseconds.
    ///
    /// Whole seconds and the ticks beyond them are converted apart, so that no
    /// intermediate product outgrows the result. The result is the exact
    /// quotient `tsc * 1_000_000_000 / frequency`, rounded down; it has to fit
    /// in 64 bits.
    pub fn now_ns(&self, tsc: u64) -> (ns: u64)
        requires
            self.representable(tsc),
        ensures
            ns == self.nanoseconds(tsc),
    {
        proof {
            use_type_invariant(self);
            lemma_split_conversion(self.freq as nat, tsc as nat);
            assert(self.freq * NANOS_PER_SEC <= u64::MAX * NANOS_PER_SEC) by (nonlinear_arith)
                requires
                    self.freq <= u64::MAX,
            ;
        }
        let secs = tsc / self.freq;
        let rem = tsc % self.freq;
        let sub = (rem as u128 * NANOS_PER_SEC as u128) / (self.freq as u128);
        secs * NANOS_PER_SEC + sub as u64
    }

    /// Converts the counter reading `tsc` to nanoseconds where the result fits
    /// in 64 bits, and says so where it does not.
    pub fn checked_now_ns(&self, tsc: u64) -> (r: Option<u64>)
        ensures
            self.representable(tsc) ==> r == Some(self.nanoseconds(tsc) as u64),
            !self.representable(tsc) ==> r.is_none(),
    {
        proof {
            use_type_invariant(self);
            assert(tsc * NANOS_PER_SEC <= u64::MAX * NANOS_PER_SEC) by (nonlinear_arith)
                requires
                    tsc <= u64::MAX,
            ;
        }
        let exact = (tsc as u128 * NANOS_PER_SEC as u128) / (self.freq as u128);
        if exact <= u64::MAX as u128 {
            Some(self.now_ns(tsc))
        } else {
            None
        }
    }
}

/// One second's worth of ticks converts to exactly one second: at every
/// frequency, `frequency` ticks are 1 000 000 000 nanoseconds.
pub proof fn lemma_full_second(t: TSC)
    requires
        t.is_valid(),
    ensures
        t.representable(t.frequency()),
        t.nanoseconds(t.frequency()) == NANOS_PER_SEC,
{
    lemma_one_second(t.frequency() as nat);
}

/// A reading of zero converts to zero nanoseconds.
pub proof fn lemma_zero_reading(t: TSC)
    requires
        t.is_valid(),
    ensures
        t.representable(0),
        t.nanoseconds(0) == 0,
{
    lemma_zero_ticks(t.frequency() as nat);
}

/// At a frequency of one gigahertz or more every reading can be converted:
/// the nanoseconds are no more than the ticks, and so fit in 64 bits whatever
/// the reading is, the largest included.
pub proof fn lemma_every_reading_converts(t: TSC, ticks: u64)
    requires
        t.frequency() >= NANOS_PER_SEC,
    ensures
        t.nanoseconds(ticks) <= ticks,
        t.representable(ticks),
        t.representable(u64::MAX),
{
    lemma_fits_from_one_gigahertz(t.frequency() as nat, ticks as nat);
    lemma_fits_from_one_gigahertz(t.frequency() as nat, u64::MAX as nat);
}

/// Time follows the counter: of two readings, the later one never converts to
/// fewer nanoseconds, and if it can be converted then so can the earlier one.
pub proof fn lemma_later_reading_is_later(t: TSC, earlier: u64, later: u64)
    requires
        t.is_valid(),
        earlier <= later,
    ensures
        t.nanoseconds(earlier) <= t.nanoseconds(later),
        t.representable(later) ==> t.representable(earlier),
{
    lemma_monotonic(t.frequency() as nat, earlier as nat, later as nat);
}

} // verus!
