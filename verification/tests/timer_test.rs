use crab_gb::timer::{Clock, Timer};

#[test]
fn div_counts_up_and_exposes_high_byte() {
    let mut timer = Timer::new();
    assert_eq!(timer.read_div(), 0);
    // 64 machine cycles are 256 ticks: one DIV step
    timer.update(64);
    assert_eq!(timer.read_div(), 1);
    timer.update(64);
    assert_eq!(timer.read_div(), 2);
    timer.reset_div();
    assert_eq!(timer.read_div(), 0);
}

#[test]
fn tima_counts_at_selected_rate() {
    let mut timer = Timer::new();
    timer.write_tac(0x05); // enabled, 16-tick period
    timer.update(4); // exactly one period
    assert_eq!(timer.tima, 1);
    timer.update(8); // two more periods
    assert_eq!(timer.tima, 3);
}

#[test]
fn tima_overflow_reloads_tma_and_fires_once() {
    let mut timer = Timer::new();
    timer.write_tac(0x05);
    timer.write_tma(0xAB);
    timer.write_tima(0xFF);
    let fired = timer.update(4);
    assert!(fired);
    assert_eq!(timer.tima, 0xAB);
    // no second request without a second overflow
    assert!(!timer.update(4));
    assert_eq!(timer.tima, 0xAC);
}

#[test]
fn disabled_timer_leaves_tima_alone_but_div_runs() {
    let mut timer = Timer::new();
    timer.write_tac(0x01); // bit 2 clear: disabled
    timer.write_tima(0x10);
    let fired = timer.update(200);
    assert!(!fired);
    assert_eq!(timer.tima, 0x10);
    assert!(timer.div_counter > 0);
}

#[test]
fn clock_selection_periods() {
    assert_eq!(Clock::C4096.to_cycles(), 1024);
    assert_eq!(Clock::C262144.to_cycles(), 16);
    assert_eq!(Clock::C65536.to_cycles(), 64);
    assert_eq!(Clock::C16384.to_cycles(), 256);
    let mut timer = Timer::new();
    timer.set_frequency(Clock::C262144);
    assert_eq!(timer.tac & 3, 1);
    assert!(timer.is_enabled());
}

#[test]
fn slowest_rate_needs_256_machine_cycles() {
    let mut timer = Timer::new(); // tac 0b100: enabled at 1024 ticks
    timer.update(255);
    assert_eq!(timer.tima, 0);
    timer.update(1);
    assert_eq!(timer.tima, 1);
}
