use std::time::{Duration, Instant};
use tsc_time::TSC;

/// The handle of this machine's counter, or one for a counter of 3 GHz where
/// the processor does not report a frequency.
fn handle() -> TSC {
    match TSC::new() {
        Ok(t) => t,
        Err(_) => TSC::from_freq(3_000_000_000).unwrap(),
    }
}

/// Stands in for the cycle counter, which only code outside the library can
/// read: a counter that had been running for a minute when `started` was taken
/// and ticks `freq` times a second by the clock of the operating system.
fn read_tsc(freq: u64, started: Instant) -> u64 {
    let up = Duration::from_secs(60) + started.elapsed();
    (up.as_nanos() * freq as u128 / 1_000_000_000) as u64
}

#[test]
fn test_perf() {
    let t = handle();
    let freq = t.get_freq();
    let started = Instant::now();

    let t0 = Instant::now();
    let mut counter = 0;
    for _ in 0..100_000 {
        let tmp = Instant::now();
        counter += tmp.duration_since(t0).as_nanos();
    }
    let t1 = Instant::now();
    assert!(counter > 10);
    println!("{:?}", t1.duration_since(t0));

    let t0 = Instant::now();
    let mut counter = 0;
    for _ in 0..100_000 {
        let tmp = t.now_ns(read_tsc(freq, started));
        counter += tmp >> 32;
    }
    let t1 = Instant::now();
    assert!(counter > 10);
    println!("{:?}", t1.duration_since(t0));
}

#[test]
fn timestamps_follow_the_counter() {
    let t = handle();
    let freq = t.get_freq();
    let started = Instant::now();
    let mut last = t.now_ns(read_tsc(freq, started));
    for _ in 0..10_000 {
        let now = t.now_ns(read_tsc(freq, started));
        assert!(now >= last);
        last = now;
    }
    assert!(last >= 60_000_000_000);
}
