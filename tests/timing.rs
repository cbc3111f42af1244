use swm050_hal::delay::{elapsed_ticks, ms_to_us_chunks, Delay, WouldBlock, MAX_CHUNK_MS};
use swm050_hal::pwm::Pwm;
use swm050_hal::syscon::{Clocks, SysconExt, DEFAULT_CLOCK_HZ};
use swm050_hal::time::Hertz;
use swm050_hal::timers::{Timer, TimerWrite};
use swm050_hal::watchdog::{timeout_exponent, Watchdog};

struct FakeSys;
struct FakeTimer(u8);
struct FakePin;

fn clocks_18mhz() -> Clocks {
    Clocks::new(Hertz(18_000_000), Hertz(18_000_000))
}

#[test]
fn elapsed_is_plain_difference_without_wrap() {
    assert_eq!(elapsed_ticks(100, 350), 250);
    assert_eq!(elapsed_ticks(7, 7), 0);
}

#[test]
fn elapsed_survives_counter_wrap() {
    assert_eq!(elapsed_ticks(0xFFFF_FFF0, 0x10), 0x20);
    let baseline: u32 = 0xFFFF_0000;
    let n: u32 = 0x0002_0000;
    assert_eq!(elapsed_ticks(baseline, baseline.wrapping_add(n)), n);
    assert_eq!(elapsed_ticks(1, 0), u32::MAX);
}

#[test]
fn ms_chunks_of_zero_is_empty() {
    assert!(ms_to_us_chunks(0).is_empty());
}

#[test]
fn ms_chunks_short_delay_is_one_piece() {
    assert_eq!(ms_to_us_chunks(1_000), vec![1_000_000]);
    assert_eq!(ms_to_us_chunks(MAX_CHUNK_MS), vec![65_535_000]);
}

#[test]
fn ms_chunks_long_delay_is_cut() {
    assert_eq!(ms_to_us_chunks(0x1_0000), vec![65_535_000, 1_000]);
    assert_eq!(ms_to_us_chunks(2 * 0xFFFF + 5), vec![65_535_000, 65_535_000, 5_000]);
}

#[test]
fn ms_chunks_largest_delay_sums_exactly() {
    let chunks = ms_to_us_chunks(u32::MAX);
    let sum: u64 = chunks.iter().map(|c| *c as u64).sum();
    assert_eq!(sum, u32::MAX as u64 * 1_000);
    assert!(chunks.iter().all(|c| *c > 0 && *c <= 65_535_000));
    assert_eq!(chunks.len(), 65_537);
}

#[test]
fn delay_scale_from_timer_clock() {
    assert_eq!(Delay::new(clocks_18mhz()).scale(), 18);
    assert_eq!(Delay::new(Clocks::new(Hertz(1_000_000), Hertz(1))).scale(), 1);
    assert_eq!(Delay::new(Clocks::new(Hertz(48_999_999), Hertz(1))).scale(), 48);
}

fn run_delay_us(us: u32, baseline: u32, step: u32) -> (u32, u32) {
    let delay = Delay::new(clocks_18mhz());
    let mut counter = baseline;
    let wait = delay.delay_us(us, counter);
    let mut polls: u32 = 0;
    loop {
        counter = counter.wrapping_add(step);
        polls += 1;
        if wait.is_done(counter) {
            break;
        }
        assert!(elapsed_ticks(baseline, counter) < 18 * us);
    }
    (polls, elapsed_ticks(baseline, counter))
}

#[test]
fn delay_us_against_simulated_counter() {
    let (polls, elapsed) = run_delay_us(1_000, 12_345, 18);
    assert_eq!(polls, 1_000);
    assert_eq!(elapsed, 18_000);
}

#[test]
fn delay_us_across_counter_wrap() {
    let (polls, elapsed) = run_delay_us(1_000, 0xFFFF_FF00, 18);
    assert_eq!(polls, 1_000);
    assert_eq!(elapsed, 18_000);
    let (polls, elapsed) = run_delay_us(10, u32::MAX, 7);
    assert_eq!(polls, 26);
    assert_eq!(elapsed, 182);
}

#[test]
fn delay_us_ticks() {
    let delay = Delay::new(clocks_18mhz());
    let w = delay.delay_us(1_000, 5);
    assert_eq!(w.baseline, 5);
    assert_eq!(w.ticks, 18_000);
    assert!(delay.delay_us(0, 5).is_done(5));
}

#[test]
fn periodic_wait_rearms() {
    let mut delay = Delay::new(clocks_18mhz());
    delay.start(Hertz(1_000), 100);
    assert_eq!(delay.wait(100), Err(WouldBlock));
    assert_eq!(delay.wait(100 + 17_999), Err(WouldBlock));
    assert_eq!(delay.wait(100 + 18_000), Ok(()));
    assert_eq!(delay.wait(100 + 18_000), Err(WouldBlock));
    assert_eq!(delay.wait(100 + 35_999), Err(WouldBlock));
    assert_eq!(delay.wait(100 + 36_000), Ok(()));
}

#[test]
fn periodic_wait_across_wrap() {
    let mut delay = Delay::new(clocks_18mhz());
    delay.start(Hertz(1), u32::MAX - 10);
    assert_eq!(delay.wait(17_999_988), Err(WouldBlock));
    assert_eq!(delay.wait(17_999_989), Ok(()));
}

#[test]
fn wait_before_start_and_after_cancel_blocks() {
    let mut delay = Delay::new(clocks_18mhz());
    assert_eq!(delay.wait(0), Err(WouldBlock));
    assert_eq!(delay.wait(u32::MAX), Err(WouldBlock));
    delay.start(Hertz(1_000), 0);
    delay.cancel();
    assert_eq!(delay.wait(18_000), Err(WouldBlock));
    assert_eq!(delay.wait(u32::MAX), Err(WouldBlock));
    delay.start(Hertz(1_000), 0);
    assert_eq!(delay.wait(18_000), Ok(()));
}

#[test]
fn freeze_gives_default_clocks() {
    let cfgr = FakeSys.configure();
    assert!(cfgr.supported());
    let syscon = cfgr.freeze();
    assert_eq!(syscon.clocks.sclk(), Hertz(DEFAULT_CLOCK_HZ));
    assert_eq!(syscon.clocks.timsclk(), Hertz(18_000_000));
}

#[test]
fn other_clock_requests_are_not_supported() {
    assert!(!FakeSys.configure().sclk(Hertz(48_000_000)).supported());
    assert!(!FakeSys.configure().timsclk(Hertz(1_000_000)).supported());
}

#[test]
fn timer_start_writes_in_safe_order() {
    let syscon = FakeSys.configure().freeze();
    let (timer, writes) = Timer::timer(FakeTimer(3), Hertz(1), &syscon);
    assert_eq!(
        writes,
        vec![
            TimerWrite::InterruptEnable(true),
            TimerWrite::Enable(false),
            TimerWrite::OverflowFlag(0),
            TimerWrite::Target(9_000_000),
            TimerWrite::Counter(0),
            TimerWrite::Enable(true),
        ]
    );
    assert_eq!(
        timer.start(Hertz(600)),
        vec![
            TimerWrite::Enable(false),
            TimerWrite::OverflowFlag(0),
            TimerWrite::Target(15_000),
            TimerWrite::Counter(0),
            TimerWrite::Enable(true),
        ]
    );
    assert_eq!(timer.wait(0), Err(WouldBlock));
    assert_eq!(timer.wait(1), Ok(()));
    assert_eq!(timer.wait(0x8000_0000), Ok(()));
    assert_eq!(timer.release().0, 3);
}

#[test]
fn pwm_starts_at_zero_duty() {
    let syscon = FakeSys.configure().freeze();
    let pwm = Pwm::new(FakeTimer(1), FakePin, Hertz(1_000), &syscon);
    assert_eq!(pwm.get_max_duty(), 18_000);
    assert_eq!(pwm.get_duty(), 0);
    assert_eq!(pwm.target(), 18_000 << 16);
}

#[test]
fn pwm_duty_round_trip() {
    let syscon = FakeSys.configure().freeze();
    let mut pwm = Pwm::new(FakeTimer(1), FakePin, Hertz(1_000), &syscon);
    for d in [0u16, 1, 6_000, 9_000, 17_999, 18_000] {
        pwm.set_duty(d);
        assert_eq!(pwm.get_duty(), d);
        assert_eq!(pwm.get_max_duty(), 18_000);
        assert_eq!(pwm.target(), d as u32 | ((18_000 - d as u32) << 16));
    }
}

#[test]
fn pwm_duty_above_period_is_clamped() {
    let syscon = FakeSys.configure().freeze();
    let mut pwm = Pwm::new(FakeTimer(1), FakePin, Hertz(1_000), &syscon);
    pwm.set_duty(20_000);
    assert_eq!(pwm.get_duty(), 18_000);
    assert_eq!(pwm.target(), 18_000);
    assert_eq!(pwm.get_max_duty(), 18_000);
}

#[test]
fn pwm_slowest_period_fits_sixteen_bits() {
    let syscon = FakeSys.configure().freeze();
    let mut pwm = Pwm::new(FakeTimer(1), FakePin, Hertz(275), &syscon);
    assert_eq!(pwm.get_max_duty(), 65_454);
    pwm.set_duty(65_454);
    assert_eq!(pwm.get_duty(), 65_454);
    let (t, _pin) = pwm.release();
    assert_eq!(t.0, 1);
}

#[test]
fn watchdog_exponent_values() {
    assert_eq!(timeout_exponent(18_000_000, Hertz(1)), 10);
    assert_eq!(timeout_exponent(18_000_000, Hertz(1_000)), 1);
    assert_eq!(timeout_exponent(0x0001_0000, Hertz(1)), 1);
    assert_eq!(timeout_exponent(0x0002_0000, Hertz(1)), 2);
    assert_eq!(timeout_exponent(0x0003_0000, Hertz(1)), 3);
}

#[test]
fn watchdog_exponent_beyond_field() {
    assert_eq!(timeout_exponent(u32::MAX, Hertz(1)), 17);
    assert_eq!(timeout_exponent(0x4000_0000, Hertz(1)), 15);
    assert_eq!(timeout_exponent(0x4001_0000, Hertz(1)), 16);
}

#[test]
fn watchdog_start_gives_exponent() {
    let syscon = FakeSys.configure().freeze();
    let mut wdt = Watchdog::new(FakeTimer(9), &syscon);
    assert_eq!(wdt.start(Hertz(1)), 10);
    assert_eq!(wdt.start(Hertz(2)), 9);
}
