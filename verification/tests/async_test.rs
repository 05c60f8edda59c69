use monad_quad::asyncs::executor::AsyncExecutor;
use monad_quad::asyncs::on_loaded::OnLoaded;
use monad_quad::asyncs::state::AsyncState;
use monad_quad::asyncs::with_loading::WithLoading;
use monad_quad::component::Component;
use monad_quad::context::Context;
use monad_quad::events::event::Event;
use monad_quad::ui::Ui;

fn ctx() -> Context {
    Context::new(1_000_000, 1_000_000, 1_000_000, 1_000_000, 16_000, 0, 0, vec![])
}

/// The host handle for a scripted computation: resolves once the
/// countdown hits zero.
struct Countdown {
    remaining: u32,
    value: i64,
}

fn poll_countdown(mut task: Countdown) -> (Countdown, Option<i64>) {
    if task.remaining == 0 {
        let v = task.value;
        (task, Some(v))
    } else {
        task.remaining -= 1;
        (task, None)
    }
}

#[test]
fn new_unloaded_is_unloaded() {
    let state: AsyncState<i64, Countdown> = AsyncState::new_unloaded();
    assert!(state.is_unloaded());
    assert!(!state.is_loading());
    assert!(!state.is_loaded());
}

#[test]
fn to_loading_enters_the_loading_state() {
    let mut state: AsyncState<i64, Countdown> = AsyncState::new_unloaded();
    state.to_loading(Countdown { remaining: 3, value: 9 });
    assert!(state.is_loading());
    assert!(state.get_value().is_none());
}

#[test]
fn executor_polls_once_per_process_without_blocking() {
    let mut state: AsyncState<i64, Countdown> =
        AsyncState::new_loading(Countdown { remaining: 2, value: 77 });
    let mut executor = AsyncExecutor::new(poll_countdown);
    let context = ctx();

    Component::process(&mut executor, &context, &mut state);
    assert!(state.is_loading());
    Component::process(&mut executor, &context, &mut state);
    assert!(state.is_loading());
    // The countdown has resolved: exactly one more process call
    // transitions to loaded, and the value is readable.
    Component::process(&mut executor, &context, &mut state);
    assert!(state.is_loaded());
    assert_eq!(state.get_value().copied(), Some(77));
}

#[test]
fn lent_out_value_reads_as_unavailable_not_a_panic() {
    let mut state: AsyncState<i64, Countdown> = AsyncState::new_done(5);
    let taken = state.take_value();
    assert_eq!(taken, Some(5));
    // A second borrow attempt while the value is out yields None.
    assert!(state.get_value().is_none());
    assert!(state.take_value().is_none());
    assert!(state.is_loaded());
    state.put_value(6);
    assert_eq!(state.get_value().copied(), Some(6));
}

#[test]
fn loading_keeps_the_stale_cache_readable() {
    let mut state: AsyncState<i64, Countdown> = AsyncState::new_done(1);
    state.to_loading(Countdown { remaining: 5, value: 2 });
    assert!(state.is_loading());
    let peeked = state.get_value_or_cache().map(|(fresh, v)| (fresh, *v));
    assert_eq!(peeked, Some((false, 1)));
    assert!(state.get_value().is_none());
}

#[test]
fn to_done_and_to_unloaded_replace_the_whole_state() {
    let mut state: AsyncState<i64, Countdown> =
        AsyncState::new_loading(Countdown { remaining: 9, value: 3 });
    state.to_done(42);
    assert!(state.is_loaded());
    assert_eq!(state.get_value().copied(), Some(42));
    state.to_unloaded();
    assert!(state.is_unloaded());
}

#[test]
fn on_loaded_runs_its_child_on_the_value() {
    let child = Event::new(|_s: &i64| (), |_ev: (), s: &i64| *s + 1);
    let mut node = OnLoaded { poll: poll_countdown, child };
    let context = ctx();

    let mut empty: AsyncState<i64, Countdown> = AsyncState::new_unloaded();
    Component::process(&mut node, &context, &mut empty);
    assert!(empty.is_unloaded());

    let mut loaded: AsyncState<i64, Countdown> = AsyncState::new_done(10);
    Component::process(&mut node, &context, &mut loaded);
    assert_eq!(loaded.get_value().copied(), Some(11));
}

#[test]
fn with_loading_switches_between_children() {
    let loaded_child = Event::new(|_s: &i64| (), |_ev: (), s: &i64| *s + 1);
    let loading_child = Event::new(
        |_s: &AsyncState<i64, Countdown>| (),
        |_ev: (), s: &AsyncState<i64, Countdown>| match s {
            AsyncState::Unloaded => AsyncState::new_done(-1),
            _ => AsyncState::Unloaded,
        },
    );
    let mut node = WithLoading::new(poll_countdown, loaded_child, loading_child);
    let context = ctx();

    // No value yet: the loading child runs on the whole state.
    let mut state: AsyncState<i64, Countdown> = AsyncState::new_unloaded();
    Component::process(&mut node, &context, &mut state);
    assert_eq!(state.get_value().copied(), Some(-1));

    // A value present: the loaded child runs on it.
    Component::process(&mut node, &context, &mut state);
    assert_eq!(state.get_value().copied(), Some(0));
}

#[test]
fn ui_pass_reaches_the_loaded_value() {
    let child = Event::new(|_s: &i64| (), |_ev: (), s: &i64| *s + 1);
    let mut node = OnLoaded { poll: poll_countdown, child };
    let context = ctx();
    let mut ui = Ui::new(vec![]);
    let mut state: AsyncState<i64, Countdown> = AsyncState::new_done(3);
    Component::ui(&mut node, &context, &mut ui, &mut state);
    // The Event child only acts in its process pass, so the value is
    // untouched, but the pass reached it without conflict.
    assert_eq!(state.get_value().copied(), Some(3));
}
