//! The lens node: adapts a child to a narrower state shape.

use vstd::prelude::*;

use core::marker::PhantomData;

use crate::component::Component;
use crate::context::Context;
use crate::frame::{DrawCmd, Frame};
use crate::ui::Ui;

verus! {

/// Runs `child` against the projection `map_in(state)` and merges the
/// outcome back with `map_out`. `process` and `ui` project, run the
/// child, then merge; `render` only projects, since rendering has no
/// write-back. Projection and merge are total: there is no failure
/// path.
pub struct Selector<StateIn, StateOut, MapIn, MapOut, Child> {
    pub map_in: MapIn,
    pub map_out: MapOut,
    pub child: Child,
    pub _state: PhantomData<(StateIn, StateOut)>,
}

impl<StateIn, StateOut, MapIn, MapOut, Child> Selector<StateIn, StateOut, MapIn, MapOut, Child> {
    /// Builds the lens node from its projection, merge and child.
    pub fn new(map_in: MapIn, map_out: MapOut, child: Child) -> (r: Self)
        where
            MapIn: Fn(&StateIn) -> StateOut,
            MapOut: Fn(StateOut, &StateIn) -> StateIn,
            Child: Component<StateOut>,
        ensures
            r == (Selector { map_in, map_out, child, _state: PhantomData::<(StateIn, StateOut)> }),
            child.inv() ==> r.inv(),
    {
        Selector { map_in, map_out, child, _state: PhantomData }
    }
}

impl<
    StateIn,
    StateOut,
    MapIn: Fn(&StateIn) -> StateOut,
    MapOut: Fn(StateOut, &StateIn) -> StateIn,
    Child: Component<StateOut>,
> Component<StateIn> for Selector<StateIn, StateOut, MapIn, MapOut, Child> {
    type Input = (MapIn, MapOut, Child);

    open spec fn input_inv(input: Self::Input) -> bool {
        input.2.inv()
    }

    open spec fn made(input: Self::Input) -> Self {
        Selector { map_in: input.0, map_out: input.1, child: input.2, _state: PhantomData }
    }

    open spec fn inv(self) -> bool {
        self.child.inv()
    }

    open spec fn process_req(self, ctx: Context, s: StateIn) -> bool {
        &&& call_requires(self.map_in, (&s,))
        &&& forall|p: StateOut| #[trigger] call_ensures(self.map_in, (&s,), p) ==> {
            &&& self.child.process_req(ctx, p)
            &&& forall|c2: Child, p2: StateOut|
                #[trigger] self.child.process_rel(ctx, p, c2, p2) ==> call_requires(
                    self.map_out,
                    (p2, &s),
                )
        }
    }

    open spec fn process_rel(self, ctx: Context, s: StateIn, new_self: Self, new_s: StateIn) -> bool {
        &&& new_self.map_in == self.map_in
        &&& new_self.map_out == self.map_out
        &&& exists|p: StateOut, p2: StateOut|
            #![trigger call_ensures(self.map_in, (&s,), p), self.child.process_rel(ctx, p, new_self.child, p2)]
            {
                &&& call_ensures(self.map_in, (&s,), p)
                &&& self.child.process_rel(ctx, p, new_self.child, p2)
                &&& call_ensures(self.map_out, (p2, &s), new_s)
            }
    }

    open spec fn render_req(self, ctx: Context, s: StateIn) -> bool {
        &&& call_requires(self.map_in, (&s,))
        &&& forall|p: StateOut|
            #[trigger] call_ensures(self.map_in, (&s,), p) ==> self.child.render_req(ctx, p)
    }

    open spec fn render_rel(self, ctx: Context, s: StateIn, emitted: Seq<DrawCmd>) -> bool {
        exists|p: StateOut|
            #[trigger] call_ensures(self.map_in, (&s,), p) && self.child.render_rel(ctx, p, emitted)
    }

    open spec fn ui_req(self, ctx: Context, ui: Ui, s: StateIn) -> bool {
        &&& call_requires(self.map_in, (&s,))
        &&& forall|p: StateOut| #[trigger] call_ensures(self.map_in, (&s,), p) ==> {
            &&& self.child.ui_req(ctx, ui, p)
            &&& forall|c2: Child, u2: Ui, p2: StateOut|
                #[trigger] self.child.ui_rel(ctx, ui, p, c2, u2, p2) ==> call_requires(
                    self.map_out,
                    (p2, &s),
                )
        }
    }

    open spec fn ui_rel(self, ctx: Context, ui: Ui, s: StateIn, new_self: Self, new_ui: Ui, new_s: StateIn) -> bool {
        &&& new_self.map_in == self.map_in
        &&& new_self.map_out == self.map_out
        &&& exists|p: StateOut, p2: StateOut|
            #![trigger call_ensures(self.map_in, (&s,), p), self.child.ui_rel(ctx, ui, p, new_self.child, new_ui, p2)]
            {
                &&& call_ensures(self.map_in, (&s,), p)
                &&& self.child.ui_rel(ctx, ui, p, new_self.child, new_ui, p2)
                &&& call_ensures(self.map_out, (p2, &s), new_s)
            }
    }

    fn instantiate(input: Self::Input) -> (r: Self) {
        let (map_in, map_out, child) = input;
        Selector { map_in, map_out, child, _state: PhantomData }
    }

    fn process(&mut self, ctx: &Context, s: &mut StateIn) {
        let mut projected = (self.map_in)(s);
        let ghost p = projected;
        self.child.process(ctx, &mut projected);
        let ghost p2 = projected;
        let merged = (self.map_out)(projected, s);
        *s = merged;
        proof {
            assert(call_ensures(old(self).map_in, (&*old(s),), p));
            assert(old(self).child.process_rel(*ctx, p, self.child, p2));
        }
    }

    fn render(&self, ctx: &Context, s: &StateIn, out: &mut Frame) {
        let projected = (self.map_in)(s);
        self.child.render(ctx, &projected, out);
    }

    fn ui(&mut self, ctx: &Context, ui: &mut Ui, s: &mut StateIn) {
        let mut projected = (self.map_in)(s);
        let ghost p = projected;
        self.child.ui(ctx, ui, &mut projected);
        let ghost p2 = projected;
        let merged = (self.map_out)(projected, s);
        *s = merged;
        proof {
            assert(call_ensures(old(self).map_in, (&*old(s),), p));
            assert(old(self).child.ui_rel(*ctx, *old(ui), p, self.child, *ui, p2));
        }
    }
}

/// Packaging of [`Selector`]'s `process` precondition: the projection
/// is callable, the child is ready on whatever it projects, and the
/// merge is callable on whatever the child produces.
pub proof fn lemma_selector_process_req_intro<
    StateIn,
    StateOut,
    MapIn: Fn(&StateIn) -> StateOut,
    MapOut: Fn(StateOut, &StateIn) -> StateIn,
    Child: Component<StateOut>,
>(sel: Selector<StateIn, StateOut, MapIn, MapOut, Child>, ctx: Context, s: StateIn)
    requires
        call_requires(sel.map_in, (&s,)),
        forall|p: StateOut| #[trigger] call_ensures(sel.map_in, (&s,), p) ==> {
            &&& sel.child.process_req(ctx, p)
            &&& forall|c2: Child, p2: StateOut|
                #[trigger] sel.child.process_rel(ctx, p, c2, p2) ==> call_requires(
                    sel.map_out,
                    (p2, &s),
                )
        },
    ensures
        sel.process_req(ctx, s),
{
}

/// A projection/merge pair is a write-back lens when merging the value
/// just projected restores the state it came from.
pub open spec fn lens_round_trip<StateIn, StateOut, MapIn: Fn(&StateIn) -> StateOut, MapOut: Fn(
    StateOut,
    &StateIn,
) -> StateIn>(map_in: MapIn, map_out: MapOut) -> bool {
    forall|s: StateIn, p: StateOut, r: StateIn|
        call_ensures(map_in, (&s,), p) && #[trigger] call_ensures(map_out, (p, &s), r) ==> r == s
}

/// The lens identity law: a write-back lens around a child whose
/// `process` leaves its projected state unchanged reproduces the
/// ambient state unchanged.
pub proof fn lemma_lens_identity<
    StateIn,
    StateOut,
    MapIn: Fn(&StateIn) -> StateOut,
    MapOut: Fn(StateOut, &StateIn) -> StateIn,
    Child: Component<StateOut>,
>(
    sel: Selector<StateIn, StateOut, MapIn, MapOut, Child>,
    ctx: Context,
    s: StateIn,
    new_sel: Selector<StateIn, StateOut, MapIn, MapOut, Child>,
    new_s: StateIn,
)
    requires
        sel.process_rel(ctx, s, new_sel, new_s),
        lens_round_trip(sel.map_in, sel.map_out),
        forall|p: StateOut, c2: Child, p2: StateOut|
            #[trigger] sel.child.process_rel(ctx, p, c2, p2) ==> p2 == p,
    ensures
        new_s == s,
{
}

} // verus!
