use monad_quad::component::Component;
use monad_quad::context::Context;
use monad_quad::events::keyboard_listener::KeyDown;
use monad_quad::events::timer::{Timer, VariableTimer};
use monad_quad::fixed::SCALE;

fn ctx_with_delta(delta: i64) -> Context {
    Context::new(1_000_000, 1_000_000, 1_000_000, 1_000_000, delta, 0, 0, vec![])
}

fn ctx_with_keys(keys: Vec<u32>) -> Context {
    Context::new(1_000_000, 1_000_000, 1_000_000, 1_000_000, 16_000, 0, 0, keys)
}

#[test]
fn timer_fires_once_per_crossed_interval() {
    let mut timer = Timer::new(SCALE, |s: &i64| *s + 1);
    let mut fired: i64 = 0;
    // 3.5 seconds in one frame against a 1 second interval: three
    // firings, half a second left on the accumulator.
    Component::<i64>::process(&mut timer, &ctx_with_delta(3 * SCALE + SCALE / 2), &mut fired);
    assert_eq!(fired, 3);
    assert_eq!(timer.current_time, SCALE / 2);
}

#[test]
fn timer_accumulates_across_short_frames() {
    let mut timer = Timer::new(SCALE, |s: &i64| *s + 1);
    let mut fired: i64 = 0;
    for _ in 0..4 {
        Component::<i64>::process(&mut timer, &ctx_with_delta(300_000), &mut fired);
    }
    assert_eq!(fired, 1);
}

#[test]
fn variable_timer_rereads_the_interval_after_each_firing() {
    // The interval is the state itself: each firing doubles it, so a
    // long frame fires fewer times than a fixed interval would.
    let mut timer = VariableTimer::new(
        |s: &i64| *s,
        |_c: &Context, s: &i64| *s * 2,
    );
    let mut interval: i64 = 100_000;
    Component::<i64>::process(&mut timer, &ctx_with_delta(350_000), &mut interval);
    // 350000 > 100000: fire, interval 200000, accumulator 150000;
    // 150000 <= 200000: stop.
    assert_eq!(interval, 200_000);
    assert_eq!(timer.current_time, 150_000);
}

#[test]
fn key_down_reports_the_keys_level_every_frame() {
    let mut listener = KeyDown::new(|_s: &(u32, bool)| 32, |down: bool, s: &(u32, bool)| (s.0, down));
    let mut state: (u32, bool) = (32, false);
    listener.process(&ctx_with_keys(vec![32]), &mut state);
    assert!(state.1);
    listener.process(&ctx_with_keys(vec![]), &mut state);
    assert!(!state.1);
}
