use monad_quad::animation::tween::{Tween, TweenConfig, TweenKind};
use monad_quad::component::Component;
use monad_quad::context::Context;
use monad_quad::fixed::SCALE;

fn ctx_with_delta(delta: i64) -> Context {
    Context::new(1_000_000_000, 1_000_000_000, 1_000_000_000, 1_000_000_000, delta, 0, 0, vec![])
}

fn all_kinds() -> Vec<TweenKind> {
    vec![
    TweenKind::Linear,
    TweenKind::EaseInSine,
    TweenKind::EaseOutSine,
    TweenKind::EaseInOutSine,
    TweenKind::EaseInCubic,
    TweenKind::EaseOutCubic,
    TweenKind::EaseInOutCubic,
    TweenKind::EaseInQuint,
    TweenKind::EaseOutQuint,
    TweenKind::EaseInOutQuint,
    TweenKind::EaseInCirc,
    TweenKind::EaseOutCirc,
    TweenKind::EaseInOutCirc,
    TweenKind::EaseInElastic,
    TweenKind::EaseOutElastic,
    TweenKind::EaseInOutElastic,
    TweenKind::EaseInQuad,
    TweenKind::EaseOutQuad,
    TweenKind::EaseInOutQuad,
    TweenKind::EaseInQuart,
    TweenKind::EaseOutQuart,
    TweenKind::EaseInOutQuart,
    TweenKind::EaseInExpo,
    TweenKind::EaseOutExpo,
    TweenKind::EaseInOutExpo,
    TweenKind::EaseInBack,
    TweenKind::EaseOutBack,
    TweenKind::EaseInOutBack,
    TweenKind::EaseInBounce,
    TweenKind::EaseOutBounce,
    TweenKind::EaseInOutBounce,
    ]
}

#[test]
fn every_curve_starts_at_zero_and_ends_at_one() {
    for kind in all_kinds() {
        assert_eq!(kind.process(0), 0, "{:?} at 0", kind);
        assert_eq!(kind.process(SCALE), SCALE, "{:?} at SCALE", kind);
    }
}

#[test]
fn linear_curve_is_identity_at_midpoint() {
    assert_eq!(TweenKind::Linear.process(SCALE / 2), SCALE / 2);
}

#[test]
fn half_frame_of_two_second_linear_tween_reaches_midpoint() {
    // at_time 0, duration 2 s, linear, running; one frame of 1.0 s
    // advances the progress to 0.5 and the eased output is 0.5.
    let mut config = TweenConfig {
        tween_data: 0i64,
        at_time: 0,
        time_in_seconds: 2 * SCALE,
        tween_kind: TweenKind::Linear,
        run: true,
    };
    let mut tween = Tween { func: |eased: i64, _old: &i64| eased };
    let ctx = ctx_with_delta(SCALE);
    tween.process(&ctx, &mut config);
    assert_eq!(config.at_time, 500_000);
    assert_eq!(config.tween_data, 500_000);
}

#[test]
fn progress_is_monotonic_and_clamped() {
    let mut config = TweenConfig {
        tween_data: 0i64,
        at_time: 0,
        time_in_seconds: SCALE,
        tween_kind: TweenKind::EaseInOutQuad,
        run: true,
    };
    let mut tween = Tween { func: |eased: i64, _old: &i64| eased };
    let ctx = ctx_with_delta(300_000);
    let mut last = config.at_time;
    for _ in 0..6 {
        tween.process(&ctx, &mut config);
        assert!(config.at_time >= last);
        assert!(config.at_time <= SCALE);
        last = config.at_time;
    }
    assert_eq!(config.at_time, SCALE);
}

#[test]
fn paused_tween_does_not_advance() {
    let mut config = TweenConfig {
        tween_data: 7i64,
        at_time: 250_000,
        time_in_seconds: SCALE,
        tween_kind: TweenKind::Linear,
        run: false,
    };
    let mut tween = Tween { func: |eased: i64, _old: &i64| eased };
    let ctx = ctx_with_delta(SCALE);
    tween.process(&ctx, &mut config);
    assert_eq!(config.at_time, 250_000);
    assert_eq!(config.tween_data, 7);
}

#[test]
fn finished_tween_is_a_no_op_until_reset() {
    let mut config = TweenConfig {
        tween_data: 3i64,
        at_time: SCALE,
        time_in_seconds: SCALE,
        tween_kind: TweenKind::Linear,
        run: true,
    };
    let mut tween = Tween { func: |eased: i64, _old: &i64| eased };
    let ctx = ctx_with_delta(SCALE);
    tween.process(&ctx, &mut config);
    assert_eq!(config.tween_data, 3);
    config.at_time = 0;
    tween.process(&ctx, &mut config);
    assert_eq!(config.tween_data, SCALE);
}
