//! Fixed- and variable-interval timers.

use vstd::prelude::*;

use crate::component::Component;
use crate::context::Context;
use crate::fixed::MAX_MAGNITUDE;
use crate::frame::{DrawCmd, Frame};
use crate::ui::Ui;

verus! {

/// `n` firings of `f` chained through intermediate states: some state
/// reachable from `s0` by applying `f` exactly `n` times is `s1`.
pub open spec fn fire_chain<State, F: Fn(&State) -> State>(
    f: F,
    n: nat,
    s0: State,
    s1: State,
) -> bool
    decreases n,
{
    if n == 0 {
        s1 == s0
    } else {
        exists|m: State|
            #[trigger] call_ensures(f, (&s0,), m) && fire_chain(f, (n - 1) as nat, m, s1)
    }
}

/// One more firing appended to a chain.
pub proof fn lemma_fire_chain_snoc<State, F: Fn(&State) -> State>(
    f: F,
    n: nat,
    s0: State,
    m: State,
    s1: State,
)
    requires
        fire_chain(f, n, s0, m),
        call_ensures(f, (&m,), s1),
    ensures
        fire_chain(f, n + 1, s0, s1),
    decreases n,
{
    if n == 0 {
        assert(fire_chain(f, 0nat, s1, s1));
    } else {
        let mid = choose|mid: State|
            #[trigger] call_ensures(f, (&s0,), mid) && fire_chain(f, (n - 1) as nat, mid, m);
        lemma_fire_chain_snoc(f, (n - 1) as nat, mid, m, s1);
    }
}

/// Accumulates frame time and fires a callback once per crossed
/// interval, looping so several intervals can fire within one long
/// frame.
pub struct Timer<OnReachedTime> {
    pub max_time: i64,
    pub current_time: i64,
    pub on_reached_time: OnReachedTime,
}

impl<OnReachedTime> Timer<OnReachedTime> {
    /// Builds the timer with a fixed interval, starting at zero
    /// accumulated time.
    pub fn new<State>(max_time: i64, on_reached_time: OnReachedTime) -> (r: Self)
        where
            OnReachedTime: Fn(&State) -> State,
        requires
            0 < max_time <= MAX_MAGNITUDE,
        ensures
            r == (Timer { max_time, current_time: 0, on_reached_time }),
            <Self as Component<State>>::inv(r),
    {
        Timer { max_time, current_time: 0, on_reached_time }
    }
}

impl<State, OnReachedTime: Fn(&State) -> State> Component<State> for Timer<OnReachedTime> {
    type Input = (i64, OnReachedTime);

    open spec fn input_inv(input: Self::Input) -> bool {
        0 < input.0 <= MAX_MAGNITUDE
    }

    open spec fn made(input: Self::Input) -> Self {
        Timer { max_time: input.0, current_time: 0, on_reached_time: input.1 }
    }

    open spec fn inv(self) -> bool {
        0 < self.max_time <= MAX_MAGNITUDE && 0 <= self.current_time <= self.max_time
    }

    open spec fn process_req(self, ctx: Context, s: State) -> bool {
        &&& ctx.wf()
        &&& forall|x: State| call_requires(self.on_reached_time, (&x,))
    }

    open spec fn process_rel(self, ctx: Context, s: State, new_self: Self, new_s: State) -> bool {
        &&& new_self.max_time == self.max_time
        &&& new_self.on_reached_time == self.on_reached_time
        &&& exists|n: nat|
            {
                &&& #[trigger] fire_chain(self.on_reached_time, n, s, new_s)
                &&& new_self.current_time == self.current_time + ctx.spec_delta() - n
                    * self.max_time
                &&& n > 0 ==> self.current_time + ctx.spec_delta() - (n - 1) * self.max_time
                    > self.max_time
            }
    }

    open spec fn render_req(self, ctx: Context, s: State) -> bool {
        true
    }

    open spec fn render_rel(self, ctx: Context, s: State, emitted: Seq<DrawCmd>) -> bool {
        emitted == Seq::<DrawCmd>::empty()
    }

    open spec fn ui_req(self, ctx: Context, ui: Ui, s: State) -> bool {
        true
    }

    open spec fn ui_rel(self, ctx: Context, ui: Ui, s: State, new_self: Self, new_ui: Ui, new_s: State) -> bool {
        new_self == self && new_ui == ui && new_s == s
    }

    fn instantiate(input: Self::Input) -> (r: Self) {
        let (max_time, on_reached_time) = input;
        Timer { max_time, current_time: 0, on_reached_time }
    }

    fn process(&mut self, ctx: &Context, s: &mut State) {
        let frame_time = ctx.get_delta();
        self.current_time = self.current_time + frame_time;
        let ghost mut fired: nat = 0nat;
        proof {
            assert(fire_chain(old(self).on_reached_time, 0nat, *old(s), *s));
        }
        while self.current_time > self.max_time
            invariant
                old(self).inv(),
                self.max_time == old(self).max_time,
                self.on_reached_time == old(self).on_reached_time,
                forall|x: State| call_requires(self.on_reached_time, (&x,)),
                fire_chain(old(self).on_reached_time, fired, *old(s), *s),
                self.current_time == old(self).current_time + ctx.spec_delta() - fired
                    * old(self).max_time,
                fired > 0 ==> old(self).current_time + ctx.spec_delta() - (fired - 1)
                    * old(self).max_time > old(self).max_time,
                0 <= self.current_time,
                ctx.wf(),
            decreases self.current_time,
        {
            let mapped = (self.on_reached_time)(s);
            let ghost prev = *s;
            *s = mapped;
            self.current_time = self.current_time - self.max_time;
            proof {
                lemma_fire_chain_snoc(old(self).on_reached_time, fired, *old(s), prev, *s);
                fired = fired + 1;
                let base = old(self).current_time + ctx.spec_delta();
                let mt = old(self).max_time as int;
                let cur = self.current_time as int;
                assert(cur == base - fired * mt) by (nonlinear_arith)
                    requires
                        cur == base - (fired - 1) * mt - mt,
                ;
            }
        }
    }

    fn render(&self, ctx: &Context, s: &State, out: &mut Frame) {
        proof {
            assert(out@.take(out@.len() as int) =~= out@);
            assert(out@.skip(out@.len() as int) =~= Seq::<DrawCmd>::empty());
        }
    }

    fn ui(&mut self, ctx: &Context, ui: &mut Ui, s: &mut State) {
    }
}

/// A variable-interval firing chain of `n` steps. `t` is the
/// accumulated time and `mt` the interval in force for the next
/// comparison; after each firing the interval is re-read from the
/// state the callback produced and subtracted.
pub open spec fn variable_fire_chain<
    State,
    GetMaxTime: Fn(&State) -> i64,
    OnReachedTime: Fn(&Context, &State) -> State,
>(
    get_max_time: GetMaxTime,
    on_reached_time: OnReachedTime,
    ctx: Context,
    t: int,
    mt: i64,
    s: State,
    t1: int,
    s1: State,
    n: nat,
) -> bool
    decreases n,
{
    if n == 0 {
        t <= mt && t1 == t && s1 == s
    } else {
        t > mt && exists|m: State, mt2: i64|
            {
                &&& #[trigger] call_ensures(on_reached_time, (&ctx, &s), m)
                &&& #[trigger] call_ensures(get_max_time, (&m,), mt2)
                &&& variable_fire_chain(
                    get_max_time,
                    on_reached_time,
                    ctx,
                    t - mt2,
                    mt2,
                    m,
                    t1,
                    s1,
                    (n - 1) as nat,
                )
            }
    }
}

/// Like [`Timer`], but re-reads the interval length from the state
/// after each firing, so the interval may depend on state the callback
/// just mutated.
pub struct VariableTimer<GetMaxTime, OnReachedTime> {
    pub current_time: i64,
    pub on_reached_time: OnReachedTime,
    pub get_max_time: GetMaxTime,
}

impl<GetMaxTime, OnReachedTime> VariableTimer<GetMaxTime, OnReachedTime> {
    /// Builds the timer, starting at zero accumulated time.
    pub fn new<State>(get_max_time: GetMaxTime, on_reached_time: OnReachedTime) -> (r: Self)
        where
            GetMaxTime: Fn(&State) -> i64,
            OnReachedTime: Fn(&Context, &State) -> State,
        ensures
            r == (VariableTimer { current_time: 0, on_reached_time, get_max_time }),
            <Self as Component<State>>::inv(r),
    {
        VariableTimer { current_time: 0, on_reached_time, get_max_time }
    }
}

impl<
    State,
    GetMaxTime: Fn(&State) -> i64,
    OnReachedTime: Fn(&Context, &State) -> State,
> Component<State> for VariableTimer<GetMaxTime, OnReachedTime> {
    type Input = (GetMaxTime, OnReachedTime);

    open spec fn input_inv(input: Self::Input) -> bool {
        true
    }

    open spec fn made(input: Self::Input) -> Self {
        VariableTimer { current_time: 0, on_reached_time: input.1, get_max_time: input.0 }
    }

    open spec fn inv(self) -> bool {
        -MAX_MAGNITUDE <= self.current_time <= MAX_MAGNITUDE
    }

    open spec fn process_req(self, ctx: Context, s: State) -> bool {
        &&& ctx.wf()
        &&& forall|x: State| call_requires(self.get_max_time, (&x,))
        &&& forall|x: State| call_requires(self.on_reached_time, (&ctx, &x))
        &&& forall|x: State, r: i64|
            #[trigger] call_ensures(self.get_max_time, (&x,), r) ==> 0 < r <= MAX_MAGNITUDE
    }

    open spec fn process_rel(self, ctx: Context, s: State, new_self: Self, new_s: State) -> bool {
        &&& new_self.on_reached_time == self.on_reached_time
        &&& new_self.get_max_time == self.get_max_time
        &&& exists|n: nat, mt0: i64|
            {
                &&& call_ensures(self.get_max_time, (&s,), mt0)
                &&& #[trigger] variable_fire_chain(
                    self.get_max_time,
                    self.on_reached_time,
                    ctx,
                    self.current_time + ctx.spec_delta(),
                    mt0,
                    s,
                    new_self.current_time as int,
                    new_s,
                    n,
                )
            }
    }

    open spec fn render_req(self, ctx: Context, s: State) -> bool {
        true
    }

    open spec fn render_rel(self, ctx: Context, s: State, emitted: Seq<DrawCmd>) -> bool {
        emitted == Seq::<DrawCmd>::empty()
    }

    open spec fn ui_req(self, ctx: Context, ui: Ui, s: State) -> bool {
        true
    }

    open spec fn ui_rel(self, ctx: Context, ui: Ui, s: State, new_self: Self, new_ui: Ui, new_s: State) -> bool {
        new_self == self && new_ui == ui && new_s == s
    }

    fn instantiate(input: Self::Input) -> (r: Self) {
        let (get_max_time, on_reached_time) = input;
        VariableTimer { current_time: 0, on_reached_time, get_max_time }
    }

    fn process(&mut self, ctx: &Context, s: &mut State) {
        let frame_time = ctx.get_delta();
        self.current_time = self.current_time + frame_time;
        let ghost t_entry = self.current_time as int;
        let ghost s_entry = *s;
        let mut max_time = (self.get_max_time)(s);
        let ghost mt0 = max_time;
        while self.current_time > max_time
            invariant
                self.on_reached_time == old(self).on_reached_time,
                self.get_max_time == old(self).get_max_time,
                forall|x: State| call_requires(self.get_max_time, (&x,)),
                forall|x: State| call_requires(self.on_reached_time, (ctx, &x)),
                forall|x: State, r: i64|
                    #[trigger] call_ensures(self.get_max_time, (&x,), r) ==> 0 < r
                        <= MAX_MAGNITUDE,
                call_ensures(self.get_max_time, (&s_entry,), mt0),
                call_ensures(self.get_max_time, (&*s,), max_time),
                forall|t1: int, s1: State, n: nat|
                    variable_fire_chain(
                        self.get_max_time,
                        self.on_reached_time,
                        *ctx,
                        self.current_time as int,
                        max_time,
                        *s,
                        t1,
                        s1,
                        n,
                    ) ==> exists|n2: nat|
                        variable_fire_chain(
                            self.get_max_time,
                            self.on_reached_time,
                            *ctx,
                            t_entry,
                            mt0,
                            s_entry,
                            t1,
                            s1,
                            n2,
                        ),
                self.current_time as int <= t_entry,
                -MAX_MAGNITUDE <= self.current_time as int,
                t_entry <= 2 * MAX_MAGNITUDE,
            decreases vstd::math::max(self.current_time as int, 0),
        {
            let ghost prev_t = self.current_time as int;
            let ghost prev_mt = max_time;
            let ghost prev_s = *s;
            let mapped = (self.on_reached_time)(ctx, s);
            *s = mapped;
            max_time = (self.get_max_time)(s);
            self.current_time = self.current_time - max_time;
            proof {
                let get = self.get_max_time;
                let f = self.on_reached_time;
                let cur = self.current_time as int;
                let mt_now = max_time;
                let s_now = *s;
                assert forall|t1: int, s1: State, n: nat|
                    variable_fire_chain(get, f, *ctx, cur, mt_now, s_now, t1, s1, n) implies exists|
                    n2: nat,
                |
                    variable_fire_chain(
                        get,
                        f,
                        *ctx,
                        t_entry,
                        mt0,
                        s_entry,
                        t1,
                        s1,
                        n2,
                    ) by {
                    assert(variable_fire_chain(
                        get,
                        f,
                        *ctx,
                        prev_t,
                        prev_mt,
                        prev_s,
                        t1,
                        s1,
                        n + 1,
                    ));
                }
            }
        }
        proof {
            assert(variable_fire_chain(
                self.get_max_time,
                self.on_reached_time,
                *ctx,
                self.current_time as int,
                max_time,
                *s,
                self.current_time as int,
                *s,
                0nat,
            ));
        }
    }

    fn render(&self, ctx: &Context, s: &State, out: &mut Frame) {
        proof {
            assert(out@.take(out@.len() as int) =~= out@);
            assert(out@.skip(out@.len() as int) =~= Seq::<DrawCmd>::empty());
        }
    }

    fn ui(&mut self, ctx: &Context, ui: &mut Ui, s: &mut State) {
    }
}

} // verus!
