//! What CPUID reports about the cycle counter, and the frequency that follows
//! from it.

use crate::error::Error;
use vstd::prelude::*;

verus! {

/// The leaf with the basic feature flags.
pub const LEAF_FEATURES: u32 = 0x1;

/// The extended leaf with the power management flags.
pub const LEAF_POWER: u32 = 0x8000_0007;

/// The leaf with the ratio of the counter to the core crystal clock.
pub const LEAF_TIMING: u32 = 0x15;

/// The leaf with the processor's base frequency in MHz.
pub const LEAF_BASE_FREQUENCY: u32 = 0x16;

/// In `edx` of the feature leaf: the processor has a cycle counter.
pub const FEATURE_TSC: u32 = 0x10;

/// In `edx` of the power leaf: the counter ticks at a fixed rate.
pub const POWER_INVARIANT_TSC: u32 = 0x100;

/// The hertz in one megahertz.
pub const HZ_PER_MHZ: u64 = 1_000_000;

/// The four registers that one CPUID query fills.
#[derive(Debug, Clone, Copy, PartialEq, Eq, Structural)]
pub struct CpuidLeaf {
    pub eax: u32,
    pub ebx: u32,
    pub ecx: u32,
    pub edx: u32,
}

/// Whether the feature leaf announces a cycle counter.
pub open spec fn counter_supported(features: CpuidLeaf) -> bool {
    features.edx & FEATURE_TSC != 0
}

/// Whether the power leaf announces a counter with a fixed rate.
pub open spec fn counter_invariant(power: CpuidLeaf) -> bool {
    power.edx & POWER_INVARIANT_TSC != 0
}

/// Whether the timing leaf holds a ratio: `ebx` over `eax`, both nonzero.
pub open spec fn ratio_reported(timing: CpuidLeaf) -> bool {
    timing.eax != 0 && timing.ebx != 0
}

/// The counter frequency from a crystal clock of `timing.ecx` hertz: the
/// crystal frequency times the ratio's numerator over its denominator,
/// rounded down.
pub open spec fn crystal_frequency(timing: CpuidLeaf) -> nat {
    ((timing.ecx as nat) * (timing.ebx as nat)) / (timing.eax as nat)
}

/// The counter frequency taken from the base frequency in MHz.
pub open spec fn base_frequency(base: CpuidLeaf) -> nat {
    (base.eax as nat) * (HZ_PER_MHZ as nat)
}

/// The frequency of the cycle counter in hertz, as the four leaves give it, or
/// the first reason why they give none.
///
/// The checks come in a fixed order: the counter must exist, it must be
/// invariant, and the timing leaf must hold a ratio. Then the crystal frequency
/// decides where the result comes from: if it is reported, from the crystal
/// and the ratio; if not, from the base frequency, which must not be zero.
pub open spec fn resolved_frequency(
    features: CpuidLeaf,
    power: CpuidLeaf,
    timing: CpuidLeaf,
    base: CpuidLeaf,
) -> Result<u64, Error> {
    if !counter_supported(features) {
        Err(Error::TscNotSupported)
    } else if !counter_invariant(power) {
        Err(Error::InvariantTscNotSupported)
    } else if !ratio_reported(timing) {
        Err(Error::CpuidLeafTscFailed)
    } else if timing.ecx != 0 {
        Ok(crystal_frequency(timing) as u64)
    } else if base.eax == 0 {
        Err(Error::CpuidLeafFreqFailed)
    } else {
        Ok(base_frequency(base) as u64)
    }
}

/// The product of two 32-bit values fits in 64 bits, and so does every
/// quotient of it.
pub proof fn lemma_crystal_frequency_fits(timing: CpuidLeaf)
    requires
        timing.eax != 0,
    ensures
        (timing.ecx as nat) * (timing.ebx as nat) <= u64::MAX,
        crystal_frequency(timing) <= (timing.ecx as nat) * (timing.ebx as nat),
        crystal_frequency(timing) <= u64::MAX,
{
    let c = timing.ecx as int;
    let n = timing.ebx as int;
    let d = timing.eax as int;
    assert(c * n <= 0xFFFF_FFFF * 0xFFFF_FFFF) by (nonlinear_arith)
        requires
            0 <= c <= 0xFFFF_FFFF,
            0 <= n <= 0xFFFF_FFFF,
    ;
    assert((c * n) / d <= c * n) by (nonlinear_arith)
        requires
            0 <= c * n,
            1 <= d,
    ;
}

/// Queries one CPUID leaf.
///
/// Calls `core::arch::x86_64::__cpuid` and copies the four registers of its
/// result, each into the field of the same name. Nothing is claimed about
/// their values: they are whatever this processor reports for `leaf`.
#[verifier::external_body]
pub(crate) fn cpuid(leaf: u32) -> (regs: CpuidLeaf) {
    let res = core::arch::x86_64::__cpuid(leaf);
    CpuidLeaf { eax: res.eax, ebx: res.ebx, ecx: res.ecx, edx: res.edx }
}

/// Works out the counter frequency from the four CPUID leaves that describe
/// the counter.
///
/// Returns the frequency in hertz, or the reason why the leaves give none:
/// `TscNotSupported` exactly when the feature flag is missing;
/// `InvariantTscNotSupported` exactly when the counter exists but is not
/// invariant; `CpuidLeafTscFailed` exactly when both flags are set and the
/// timing leaf holds no ratio; `CpuidLeafFreqFailed` exactly when all of that
/// passed, the crystal frequency is not reported and the base frequency is zero.
pub fn resolve_frequency(
    features: CpuidLeaf,
    power: CpuidLeaf,
    timing: CpuidLeaf,
    base: CpuidLeaf,
) -> (r: Result<u64, Error>)
    ensures
        r == resolved_frequency(features, power, timing, base),
        r == Err::<u64, Error>(Error::TscNotSupported) <==> !counter_supported(features),
        r == Err::<u64, Error>(Error::InvariantTscNotSupported) <==> counter_supported(features)
            && !counter_invariant(power),
        r == Err::<u64, Error>(Error::CpuidLeafTscFailed) <==> counter_supported(features)
            && counter_invariant(power) && !ratio_reported(timing),
        r == Err::<u64, Error>(Error::CpuidLeafFreqFailed) <==> counter_supported(features)
            && counter_invariant(power) && ratio_reported(timing) && timing.ecx == 0 && base.eax
            == 0,
        r is Ok <==> counter_supported(features) && counter_invariant(power) && ratio_reported(
            timing,
        ) && (timing.ecx != 0 || base.eax != 0),
        r matches Ok(freq) ==> freq == (if timing.ecx != 0 {
            crystal_frequency(timing)
        } else {
            base_frequency(base)
        }),
{
    if features.edx & FEATURE_TSC == 0 {
        return Err(Error::TscNotSupported);
    }
    if power.edx & POWER_INVARIANT_TSC == 0 {
        return Err(Error::InvariantTscNotSupported);
    }
    if timing.ebx == 0 || timing.eax == 0 {
        return Err(Error::CpuidLeafTscFailed);
    }
    if timing.ecx != 0 {
        proof {
            lemma_crystal_frequency_fits(timing);
        }
        Ok((timing.ecx as u64 * timing.ebx as u64) / (timing.eax as u64))
    } else {
        if base.eax == 0 {
            return Err(Error::CpuidLeafFreqFailed);
        }
        Ok(base.eax as u64 * HZ_PER_MHZ)
    }
}

} // verus!
