//! The timer's falling-edge rule and the noise channel's shift register.

use rustgb::noise_channel::NoiseChannel;
use rustgb::timer::{Timer, TimerSpeed};

#[test]
fn tima_falling_edge_rule() {
    let mut timer = Timer::new();
    timer.timer_enabled = true;
    timer.timer_speed = TimerSpeed::ClockOver16;
    // Counter at 0b0111: the /16 tap (bit 3) reads 0.
    timer.internal_counter = 0b0111;
    timer.old_tima_relevant_bit = false;

    // 0b0111 -> 0b1000 is a rising edge: no increment.
    timer.increase(1);
    assert_eq!(timer.internal_counter, 0b1000);
    assert_eq!(timer.timer_counter, 0);

    // 0b1000 -> 0b1001 keeps the tap high: no increment.
    timer.increase(1);
    assert_eq!(timer.timer_counter, 0);

    // A DIV reset drops the tap from 1 to 0: TIMA must increment.
    timer.reset_divider();
    assert_eq!(timer.internal_counter, 0);
    assert_eq!(timer.timer_counter, 1);
}

#[test]
fn tima_overflow_reloads_from_tma_and_raises_interrupt() {
    let mut timer = Timer::new();
    timer.timer_enabled = true;
    timer.timer_speed = TimerSpeed::ClockOver16;
    timer.timer_counter = 0xFF;
    timer.timer_modulo = 0xAB;
    timer.internal_counter = 0b1000;
    timer.old_tima_relevant_bit = true;
    // The reset makes TIMA overflow; the reload lands four cycles later.
    timer.reset_divider();
    assert_eq!(timer.timer_counter, 0x00);
    assert!(!timer.timer_interrupt);
    timer.increase(4);
    assert_eq!(timer.timer_counter, 0xAB);
    assert!(timer.timer_interrupt);
}

#[test]
fn disabled_timer_never_increments() {
    let mut timer = Timer::new();
    timer.timer_enabled = false;
    timer.timer_speed = TimerSpeed::ClockOver16;
    timer.increase(255);
    timer.increase(255);
    assert_eq!(timer.timer_counter, 0);
}

#[test]
fn lfsr_period_is_32767() {
    let mut channel = NoiseChannel::new();
    assert_eq!(channel.shift_register, 0x7FFF);
    let mut period: u32 = 0;
    for i in 1..=40000u32 {
        channel.shift_right();
        if channel.shift_register == 0x7FFF {
            period = i;
            break;
        }
    }
    assert_eq!(period, 32767);
}
