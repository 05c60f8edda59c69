use monad_quad::component::Component;
use monad_quad::context::Context;
use monad_quad::frame::Color;
use monad_quad::render::background::Background;
use monad_quad::events::event::Event;
use monad_quad::frame::Frame;
use monad_quad::logic::choice::Choice;
use monad_quad::logic::contained_state::ContainedState;
use monad_quad::logic::mapper::Comp;
use monad_quad::logic::never::Never;
use monad_quad::logic::only_render_on::{OnlyRenderOn, OnlyRenderWith};
use monad_quad::logic::selector::Selector;
use monad_quad::logic::statefull::StateFull;
use monad_quad::logic::static_value::StaticValue;
use monad_quad::ui::Ui;

fn ctx() -> Context {
    Context::new(1_000_000, 1_000_000, 1_000_000, 1_000_000, 16_000, 0, 0, vec![])
}

fn add_one() -> Event<impl Fn(&i64) -> (), impl Fn((), &i64) -> i64> {
    Event::new(|_s: &i64| (), |_ev: (), s: &i64| *s + 1)
}

fn double() -> Event<impl Fn(&i64) -> (), impl Fn((), &i64) -> i64> {
    Event::new(|_s: &i64| (), |_ev: (), s: &i64| *s * 2)
}

#[test]
fn three_tuple_processes_left_to_right() {
    // Three incrementing children over a shared counter: one pass
    // adds exactly three.
    let mut tree = (add_one(), add_one(), add_one());
    let mut counter: i64 = 0;
    tree.process(&ctx(), &mut counter);
    assert_eq!(counter, 3);
}

#[test]
fn tuple_order_is_observable() {
    // (+1, *2) on 3 gives 8; the other order would give 7.
    let mut tree = (add_one(), double());
    let mut counter: i64 = 3;
    tree.process(&ctx(), &mut counter);
    assert_eq!(counter, 8);
}

#[test]
fn choice_runs_exactly_one_branch() {
    let mut tree = Choice::new(|s: &i64| *s >= 0, add_one(), double());
    let mut positive: i64 = 5;
    tree.process(&ctx(), &mut positive);
    assert_eq!(positive, 6);

    let mut negative: i64 = -4;
    tree.process(&ctx(), &mut negative);
    assert_eq!(negative, -8);
}

#[test]
fn selector_round_trip_preserves_state() {
    // A write-back lens around a child that does not change its
    // projection leaves the ambient state untouched.
    let lens = Selector::new(
        |s: &(i64, i64)| s.0,
        |out: i64, s: &(i64, i64)| (out, s.1),
        Never,
    );
    let mut lens = lens;
    let mut state = (41i64, 99i64);
    lens.process(&ctx(), &mut state);
    assert_eq!(state, (41, 99));
}

#[test]
fn selector_merges_child_outcome_back() {
    let mut lens = Selector::new(
        |s: &(i64, i64)| s.0,
        |out: i64, s: &(i64, i64)| (out, s.1),
        add_one(),
    );
    let mut state = (41i64, 99i64);
    lens.process(&ctx(), &mut state);
    assert_eq!(state, (42, 99));
}

#[test]
fn mapper_builds_a_lens() {
    let mut lens = Comp::<i64, Event<_, _>>::map_in(|s: &(i64, i64)| s.1)
        .map_out_for(|out: i64, s: &(i64, i64)| (s.0, out), add_one());
    let mut state = (7i64, 10i64);
    lens.process(&ctx(), &mut state);
    assert_eq!(state, (7, 11));
}

#[test]
fn only_render_on_gates_process() {
    let mut gate = OnlyRenderOn::new(add_one(), |s: &i64| *s < 10);
    let mut below: i64 = 9;
    let ran = gate.process(&ctx(), &mut below);
    assert!(ran);
    assert_eq!(below, 10);
    let ran_again = gate.process(&ctx(), &mut below);
    assert!(!ran_again);
    assert_eq!(below, 10);
}

#[test]
fn only_render_with_runs_child_xor_fallback() {
    let mut tree = OnlyRenderWith::new(|s: &i64| *s >= 0, add_one(), double());
    let mut active: i64 = 1;
    Component::process(&mut tree, &ctx(), &mut active);
    assert_eq!(active, 2);

    let mut paused: i64 = -3;
    Component::process(&mut tree, &ctx(), &mut paused);
    assert_eq!(paused, -6);
}

#[test]
fn static_value_freezes_its_snapshot() {
    let mut frozen = StaticValue::new::<i64>(5i64, add_one());
    let mut ambient: i64 = 100;
    Component::<i64>::process(&mut frozen, &ctx(), &mut ambient);
    assert_eq!(ambient, 100);
    assert_eq!(frozen.static_value, 5);
}

#[test]
fn contained_state_keeps_its_private_scene_alive() {
    let mut contained = ContainedState { static_value: 0i64, child: add_one() };
    let mut ambient: i64 = 50;
    Component::<i64>::process(&mut contained, &ctx(), &mut ambient);
    Component::<i64>::process(&mut contained, &ctx(), &mut ambient);
    assert_eq!(ambient, 50);
    assert_eq!(contained.static_value, 2);
}

#[test]
fn only_render_with_always_renders_child_and_fallback_only_when_paused() {
    let tree = OnlyRenderWith::new(|c: &Color| c.r > 0, Background, Background);
    let context = ctx();

    let running = Color { r: 1, g: 0, b: 0, a: 255 };
    let mut out = Frame::new();
    tree.render(&context, &running, &mut out);
    assert_eq!(out.commands().len(), 1);

    let paused = Color { r: 0, g: 0, b: 0, a: 255 };
    let mut out_paused = Frame::new();
    tree.render(&context, &paused, &mut out_paused);
    assert_eq!(out_paused.commands().len(), 2);
}

#[test]
fn choice_renders_the_branch_the_predicate_picks() {
    let tree = Choice::new(|c: &Color| c.r > 0, Background, Never);
    let context = ctx();

    let lit = Color { r: 9, g: 0, b: 0, a: 0 };
    let mut out = Frame::new();
    tree.render(&context, &lit, &mut out);
    assert_eq!(out.commands().len(), 1);

    let dark = Color { r: 0, g: 0, b: 0, a: 0 };
    let mut out_dark = Frame::new();
    tree.render(&context, &dark, &mut out_dark);
    assert_eq!(out_dark.commands().len(), 0);
}

#[test]
fn frame_runs_process_then_render_then_ui() {
    let mut state_full = StateFull::new_from(0i64);
    let mut tree = (add_one(),);
    let mut ui = Ui::new(vec![]);
    let mut out = Frame::new();
    state_full.frame(&mut tree, &ctx(), &mut ui, &mut out);
    assert_eq!(state_full.state, 1);
    assert_eq!(out.commands().len(), 0);
}
