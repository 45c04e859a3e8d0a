use tsc_time::cpuid::resolve_frequency;
use tsc_time::{CpuidLeaf, Error, TSC};

const NOTHING: CpuidLeaf = CpuidLeaf { eax: 0, ebx: 0, ecx: 0, edx: 0 };

fn edx(bits: u32) -> CpuidLeaf {
    CpuidLeaf { eax: 0, ebx: 0, ecx: 0, edx: bits }
}

fn timing(denominator: u32, numerator: u32, crystal_hz: u32) -> CpuidLeaf {
    CpuidLeaf { eax: denominator, ebx: numerator, ecx: crystal_hz, edx: 0 }
}

fn base_mhz(mhz: u32) -> CpuidLeaf {
    CpuidLeaf { eax: mhz, ebx: 0, ecx: 0, edx: 0 }
}

#[test]
fn crystal_and_ratio_give_the_frequency() {
    let r = resolve_frequency(edx(0x10), edx(0x100), timing(2, 240, 25_000_000), NOTHING);
    assert_eq!(r, Ok(3_000_000_000));
    let r = resolve_frequency(edx(0x10), edx(0x100), timing(2, 188, 24_000_000), base_mhz(9));
    assert_eq!(r, Ok(2_256_000_000));
}

#[test]
fn crystal_quotient_is_rounded_down() {
    let r = resolve_frequency(edx(0x10), edx(0x100), timing(3, 10, 1), NOTHING);
    assert_eq!(r, Ok(3));
    let r = resolve_frequency(edx(0x10), edx(0x100), timing(7, 100, 19_200_000), NOTHING);
    assert_eq!(r, Ok(274_285_714));
}

#[test]
fn crystal_product_is_taken_in_64_bits() {
    let r = resolve_frequency(edx(0x10), edx(0x100), timing(1, u32::MAX, u32::MAX), NOTHING);
    assert_eq!(r, Ok(18_446_744_065_119_617_025));
    let r = resolve_frequency(edx(0x10), edx(0x100), timing(1, 1_000, 38_400_000), NOTHING);
    assert_eq!(r, Ok(38_400_000_000));
}

#[test]
fn base_frequency_is_the_fallback() {
    let r = resolve_frequency(edx(0x10), edx(0x100), timing(2, 200, 0), base_mhz(2_400));
    assert_eq!(r, Ok(2_400_000_000));
    let r = resolve_frequency(edx(0x10), edx(0x100), timing(1, 1, 0), base_mhz(u32::MAX));
    assert_eq!(r, Ok(4_294_967_295_000_000));
}

#[test]
fn other_flags_do_not_matter() {
    let r = resolve_frequency(edx(0xffff_ffff), edx(0xffff_ffff), timing(1, 100, 30_000_000), NOTHING);
    assert_eq!(r, Ok(3_000_000_000));
    let r = resolve_frequency(edx(!0x10), edx(0xffff_ffff), timing(1, 100, 30_000_000), NOTHING);
    assert_eq!(r, Err(Error::TscNotSupported));
    let r = resolve_frequency(edx(0xffff_ffff), edx(!0x100), timing(1, 100, 30_000_000), NOTHING);
    assert_eq!(r, Err(Error::InvariantTscNotSupported));
}

#[test]
fn missing_counter_is_reported() {
    let r = resolve_frequency(edx(0), edx(0x100), timing(2, 240, 25_000_000), base_mhz(3_000));
    assert_eq!(r, Err(Error::TscNotSupported));
}

#[test]
fn missing_counter_is_reported_first() {
    let r = resolve_frequency(NOTHING, NOTHING, NOTHING, NOTHING);
    assert_eq!(r, Err(Error::TscNotSupported));
}

#[test]
fn varying_counter_is_reported() {
    let r = resolve_frequency(edx(0x10), edx(0), timing(2, 240, 25_000_000), base_mhz(3_000));
    assert_eq!(r, Err(Error::InvariantTscNotSupported));
    let r = resolve_frequency(edx(0x10), NOTHING, NOTHING, NOTHING);
    assert_eq!(r, Err(Error::InvariantTscNotSupported));
}

#[test]
fn zero_ratio_is_reported() {
    let r = resolve_frequency(edx(0x10), edx(0x100), timing(0, 240, 25_000_000), base_mhz(3_000));
    assert_eq!(r, Err(Error::CpuidLeafTscFailed));
    let r = resolve_frequency(edx(0x10), edx(0x100), timing(2, 0, 25_000_000), base_mhz(3_000));
    assert_eq!(r, Err(Error::CpuidLeafTscFailed));
    let r = resolve_frequency(edx(0x10), edx(0x100), NOTHING, NOTHING);
    assert_eq!(r, Err(Error::CpuidLeafTscFailed));
}

#[test]
fn zero_base_frequency_is_reported() {
    let r = resolve_frequency(edx(0x10), edx(0x100), timing(2, 240, 0), base_mhz(0));
    assert_eq!(r, Err(Error::CpuidLeafFreqFailed));
}

#[test]
fn base_frequency_is_not_asked_when_the_crystal_is_known() {
    let r = resolve_frequency(edx(0x10), edx(0x100), timing(1, 100, 1), base_mhz(0));
    assert_eq!(r, Ok(100));
}

#[test]
fn ratio_below_one_hertz_resolves_to_zero_and_makes_no_handle() {
    let r = resolve_frequency(edx(0x10), edx(0x100), timing(2, 1, 1), NOTHING);
    assert_eq!(r, Ok(0));
    assert_eq!(TSC::from_freq(0).err(), Some(Error::CpuidLeafTscFailed));
}

#[test]
fn handle_holds_its_frequency() {
    let t = TSC::from_freq(2_400_000_000).unwrap();
    assert_eq!(t.get_freq(), 2_400_000_000);
    let t = TSC::from_freq(1).unwrap();
    assert_eq!(t.get_freq(), 1);
    let t = TSC::from_freq(u64::MAX).unwrap();
    assert_eq!(t.get_freq(), u64::MAX);
    let copy = t;
    assert_eq!(copy.get_freq(), t.get_freq());
    assert_eq!(t.clone().get_freq(), u64::MAX);
}

#[test]
fn discovery_gives_the_same_answer_every_time() {
    let first = TSC::cpu_freq();
    for _ in 0..100 {
        assert_eq!(TSC::cpu_freq(), first);
    }
}

#[test]
fn handle_agrees_with_the_discovered_frequency() {
    for _ in 0..10 {
        match (TSC::cpu_freq(), TSC::new()) {
            (Ok(0), made) => assert_eq!(made.err(), Some(Error::CpuidLeafTscFailed)),
            (Ok(freq), made) => assert_eq!(made.unwrap().get_freq(), freq),
            (Err(e), made) => assert_eq!(made.err(), Some(e)),
        }
    }
}

#[test]
fn errors_read_as_their_names() {
    assert_eq!(Error::TscNotSupported.to_string(), "TscNotSupported");
    assert_eq!(Error::InvariantTscNotSupported.to_string(), "InvariantTscNotSupported");
    assert_eq!(Error::CpuidLeafTscFailed.to_string(), "CpuidLeafTscFailed");
    assert_eq!(Error::CpuidLeafFreqFailed.to_string(), "CpuidLeafFreqFailed");
    assert_eq!(format!("{:?}", Error::CpuidLeafFreqFailed), "CpuidLeafFreqFailed");
    assert_ne!(Error::TscNotSupported, Error::InvariantTscNotSupported);
}
