//! The node contract: the trait every tree element implements.
//!
//! A component runs three passes per frame against a shared state
//! value: `process` mutates it, `render` reads it and emits draw
//! commands, `ui` declares widgets and folds their responses back into
//! it. Each implementation publishes its behaviour as relations
//! (`process_rel`, `render_rel`, `ui_rel`) that its executable passes
//! are proved to satisfy, so whole trees compose with exact contracts.
//!
//! Tuples of up to four components are themselves components: each
//! pass runs the children left to right against the same state, later
//! children observing the mutations of earlier ones.

use vstd::prelude::*;

use crate::context::Context;
use crate::frame::{DrawCmd, Frame};
use crate::ui::Ui;

verus! {

pub trait Component<State>: Sized {
    /// What the component needs in order to be instantiated.
    type Input;

    /// Which inputs make a well-formed component.
    spec fn input_inv(input: Self::Input) -> bool;

    /// The component `instantiate` builds from an input.
    spec fn made(input: Self::Input) -> Self;

    /// Well-formedness, established by `instantiate` from a
    /// well-formed input and preserved by every pass.
    spec fn inv(self) -> bool;

    /// What `process` needs of the context and incoming state.
    spec fn process_req(self, ctx: Context, s: State) -> bool;

    /// How one `process` call may change the component and the state.
    spec fn process_rel(self, ctx: Context, s: State, new_self: Self, new_s: State) -> bool;

    /// What `render` needs of the context and state.
    spec fn render_req(self, ctx: Context, s: State) -> bool;

    /// Which command sequences one `render` call may emit.
    spec fn render_rel(self, ctx: Context, s: State, emitted: Seq<DrawCmd>) -> bool;

    /// What `ui` needs of the context, pending responses and state.
    spec fn ui_req(self, ctx: Context, ui: Ui, s: State) -> bool;

    /// How one `ui` call may change the component, the exchange and
    /// the state.
    spec fn ui_rel(self, ctx: Context, ui: Ui, s: State, new_self: Self, new_ui: Ui, new_s: State) -> bool;

    /// Builds the component from its input.
    fn instantiate(input: Self::Input) -> (r: Self)
        ensures
            r == Self::made(input),
            Self::input_inv(input) ==> r.inv(),
    ;

    /// Mutates the state for this frame.
    fn process(&mut self, ctx: &Context, s: &mut State)
        requires
            old(self).inv(),
            old(self).process_req(*ctx, *old(s)),
        ensures
            final(self).inv(),
            old(self).process_rel(*ctx, *old(s), *final(self), *final(s)),
    ;

    /// Emits this frame's draw commands from the state; appends to
    /// `out` and never mutates the state.
    fn render(&self, ctx: &Context, s: &State, out: &mut Frame)
        requires
            self.inv(),
            self.render_req(*ctx, *s),
        ensures
            old(out)@.len() <= final(out)@.len(),
            final(out)@.take(old(out)@.len() as int) == old(out)@,
            self.render_rel(*ctx, *s, final(out)@.skip(old(out)@.len() as int)),
    ;

    /// Declares this frame's widgets and folds their responses into
    /// the state.
    fn ui(&mut self, ctx: &Context, ui: &mut Ui, s: &mut State)
        requires
            old(self).inv(),
            old(self).ui_req(*ctx, *old(ui), *old(s)),
        ensures
            final(self).inv(),
            old(self).ui_rel(*ctx, *old(ui), *old(s), *final(self), *final(ui), *final(s)),
    ;
}

impl<State, C1: Component<State>> Component<State> for (C1,) {
    type Input = C1::Input;

    open spec fn input_inv(input: Self::Input) -> bool {
        C1::input_inv(input)
    }

    open spec fn made(input: Self::Input) -> Self {
        (C1::made(input),)
    }

    open spec fn inv(self) -> bool {
        self.0.inv()
    }

    open spec fn process_req(self, ctx: Context, s: State) -> bool {
        self.0.process_req(ctx, s)
    }

    open spec fn process_rel(self, ctx: Context, s: State, new_self: Self, new_s: State) -> bool {
        self.0.process_rel(ctx, s, new_self.0, new_s)
    }

    open spec fn render_req(self, ctx: Context, s: State) -> bool {
        self.0.render_req(ctx, s)
    }

    open spec fn render_rel(self, ctx: Context, s: State, emitted: Seq<DrawCmd>) -> bool {
        self.0.render_rel(ctx, s, emitted)
    }

    open spec fn ui_req(self, ctx: Context, ui: Ui, s: State) -> bool {
        self.0.ui_req(ctx, ui, s)
    }

    open spec fn ui_rel(self, ctx: Context, ui: Ui, s: State, new_self: Self, new_ui: Ui, new_s: State) -> bool {
        self.0.ui_rel(ctx, ui, s, new_self.0, new_ui, new_s)
    }

    fn instantiate(input: Self::Input) -> (r: Self) {
        (C1::instantiate(input),)
    }

    fn process(&mut self, ctx: &Context, s: &mut State) {
        self.0.process(ctx, s);
    }

    fn render(&self, ctx: &Context, s: &State, out: &mut Frame) {
        self.0.render(ctx, s, out);
    }

    fn ui(&mut self, ctx: &Context, ui: &mut Ui, s: &mut State) {
        self.0.ui(ctx, ui, s);
    }
}

impl<State, C1: Component<State>, C2: Component<State>> Component<State> for (C1, C2) {
    type Input = (C1::Input, C2::Input);

    open spec fn input_inv(input: Self::Input) -> bool {
        C1::input_inv(input.0) && C2::input_inv(input.1)
    }

    open spec fn made(input: Self::Input) -> Self {
        (C1::made(input.0), C2::made(input.1))
    }

    open spec fn inv(self) -> bool {
        self.0.inv() && self.1.inv()
    }

    open spec fn process_req(self, ctx: Context, s: State) -> bool {
        &&& self.0.process_req(ctx, s)
        &&& forall|c1: C1, m: State|
            #[trigger] self.0.process_rel(ctx, s, c1, m) ==> self.1.process_req(ctx, m)
    }

    open spec fn process_rel(self, ctx: Context, s: State, new_self: Self, new_s: State) -> bool {
        exists|m: State|
            #[trigger] self.0.process_rel(ctx, s, new_self.0, m) && self.1.process_rel(
                ctx,
                m,
                new_self.1,
                new_s,
            )
    }

    open spec fn render_req(self, ctx: Context, s: State) -> bool {
        self.0.render_req(ctx, s) && self.1.render_req(ctx, s)
    }

    open spec fn render_rel(self, ctx: Context, s: State, emitted: Seq<DrawCmd>) -> bool {
        exists|e1: Seq<DrawCmd>, e2: Seq<DrawCmd>|
            #![trigger self.0.render_rel(ctx, s, e1), self.1.render_rel(ctx, s, e2)]
            emitted == e1 + e2 && self.0.render_rel(ctx, s, e1) && self.1.render_rel(ctx, s, e2)
    }

    open spec fn ui_req(self, ctx: Context, ui: Ui, s: State) -> bool {
        &&& self.0.ui_req(ctx, ui, s)
        &&& forall|c1: C1, u: Ui, m: State|
            #[trigger] self.0.ui_rel(ctx, ui, s, c1, u, m) ==> self.1.ui_req(ctx, u, m)
    }

    open spec fn ui_rel(self, ctx: Context, ui: Ui, s: State, new_self: Self, new_ui: Ui, new_s: State) -> bool {
        exists|u: Ui, m: State|
            #[trigger] self.0.ui_rel(ctx, ui, s, new_self.0, u, m) && self.1.ui_rel(
                ctx,
                u,
                m,
                new_self.1,
                new_ui,
                new_s,
            )
    }

    fn instantiate(input: Self::Input) -> (r: Self) {
        let (i1, i2) = input;
        (C1::instantiate(i1), C2::instantiate(i2))
    }

    fn process(&mut self, ctx: &Context, s: &mut State) {
        self.0.process(ctx, s);
        let ghost m = *s;
        self.1.process(ctx, s);
        proof {
            assert(old(self).0.process_rel(*ctx, *old(s), self.0, m));
        }
    }

    fn render(&self, ctx: &Context, s: &State, out: &mut Frame) {
        let ghost n0 = out@.len() as int;
        self.0.render(ctx, s, out);
        let ghost n1 = out@.len() as int;
        let ghost e1 = out@.skip(n0);
        self.1.render(ctx, s, out);
        proof {
            let emitted = out@.skip(n0);
            let e2 = out@.skip(n1);
            assert(emitted =~= e1 + e2);
            assert(self.0.render_rel(*ctx, *s, e1));
            assert(out@.take(n0) =~= old(out)@);
        }
    }

    fn ui(&mut self, ctx: &Context, ui: &mut Ui, s: &mut State) {
        self.0.ui(ctx, ui, s);
        let ghost u = *ui;
        let ghost m = *s;
        self.1.ui(ctx, ui, s);
        proof {
            assert(old(self).0.ui_rel(*ctx, *old(ui), *old(s), self.0, u, m));
        }
    }
}

impl<State, C1: Component<State>, C2: Component<State>, C3: Component<State>> Component<
    State,
> for (C1, C2, C3) {
    type Input = (C1::Input, C2::Input, C3::Input);

    open spec fn input_inv(input: Self::Input) -> bool {
        C1::input_inv(input.0) && C2::input_inv(input.1) && C3::input_inv(input.2)
    }

    open spec fn made(input: Self::Input) -> Self {
        (C1::made(input.0), C2::made(input.1), C3::made(input.2))
    }

    open spec fn inv(self) -> bool {
        self.0.inv() && self.1.inv() && self.2.inv()
    }

    open spec fn process_req(self, ctx: Context, s: State) -> bool {
        &&& self.0.process_req(ctx, s)
        &&& forall|c1: C1, m: State|
            #[trigger] self.0.process_rel(ctx, s, c1, m) ==> {
                &&& self.1.process_req(ctx, m)
                &&& forall|c2: C2, m2: State|
                    #[trigger] self.1.process_rel(ctx, m, c2, m2) ==> self.2.process_req(ctx, m2)
            }
    }

    open spec fn process_rel(self, ctx: Context, s: State, new_self: Self, new_s: State) -> bool {
        exists|m1: State, m2: State|
            #![trigger self.0.process_rel(ctx, s, new_self.0, m1), self.1.process_rel(ctx, m1, new_self.1, m2)]
            {
                &&& self.0.process_rel(ctx, s, new_self.0, m1)
                &&& self.1.process_rel(ctx, m1, new_self.1, m2)
                &&& self.2.process_rel(ctx, m2, new_self.2, new_s)
            }
    }

    open spec fn render_req(self, ctx: Context, s: State) -> bool {
        self.0.render_req(ctx, s) && self.1.render_req(ctx, s) && self.2.render_req(ctx, s)
    }

    open spec fn render_rel(self, ctx: Context, s: State, emitted: Seq<DrawCmd>) -> bool {
        exists|e1: Seq<DrawCmd>, e2: Seq<DrawCmd>, e3: Seq<DrawCmd>|
            #![trigger self.0.render_rel(ctx, s, e1), self.1.render_rel(ctx, s, e2), self.2.render_rel(ctx, s, e3)]
            {
                &&& emitted == e1 + e2 + e3
                &&& self.0.render_rel(ctx, s, e1)
                &&& self.1.render_rel(ctx, s, e2)
                &&& self.2.render_rel(ctx, s, e3)
            }
    }

    open spec fn ui_req(self, ctx: Context, ui: Ui, s: State) -> bool {
        &&& self.0.ui_req(ctx, ui, s)
        &&& forall|c1: C1, u: Ui, m: State|
            #[trigger] self.0.ui_rel(ctx, ui, s, c1, u, m) ==> {
                &&& self.1.ui_req(ctx, u, m)
                &&& forall|c2: C2, u2: Ui, m2: State|
                    #[trigger] self.1.ui_rel(ctx, u, m, c2, u2, m2) ==> self.2.ui_req(ctx, u2, m2)
            }
    }

    open spec fn ui_rel(self, ctx: Context, ui: Ui, s: State, new_self: Self, new_ui: Ui, new_s: State) -> bool {
        exists|u1: Ui, m1: State, u2: Ui, m2: State|
            #![trigger self.0.ui_rel(ctx, ui, s, new_self.0, u1, m1), self.1.ui_rel(ctx, u1, m1, new_self.1, u2, m2)]
            {
                &&& self.0.ui_rel(ctx, ui, s, new_self.0, u1, m1)
                &&& self.1.ui_rel(ctx, u1, m1, new_self.1, u2, m2)
                &&& self.2.ui_rel(ctx, u2, m2, new_self.2, new_ui, new_s)
            }
    }

    fn instantiate(input: Self::Input) -> (r: Self) {
        let (i1, i2, i3) = input;
        (C1::instantiate(i1), C2::instantiate(i2), C3::instantiate(i3))
    }

    fn process(&mut self, ctx: &Context, s: &mut State) {
        self.0.process(ctx, s);
        let ghost m1 = *s;
        self.1.process(ctx, s);
        let ghost m2 = *s;
        self.2.process(ctx, s);
        proof {
            assert(old(self).0.process_rel(*ctx, *old(s), self.0, m1));
            assert(old(self).1.process_rel(*ctx, m1, self.1, m2));
        }
    }

    fn render(&self, ctx: &Context, s: &State, out: &mut Frame) {
        let ghost n0 = out@.len() as int;
        self.0.render(ctx, s, out);
        let ghost n1 = out@.len() as int;
        let ghost e1 = out@.skip(n0);
        self.1.render(ctx, s, out);
        let ghost n2 = out@.len() as int;
        let ghost e2 = out@.skip(n1);
        self.2.render(ctx, s, out);
        proof {
            let emitted = out@.skip(n0);
            let e3 = out@.skip(n2);
            assert(out@.take(n1).skip(n0) =~= e1);
            assert(out@.take(n2).skip(n1) =~= e2);
            assert(emitted =~= e1 + e2 + e3);
            assert(self.0.render_rel(*ctx, *s, e1));
            assert(self.1.render_rel(*ctx, *s, e2));
            assert(out@.take(n0) =~= old(out)@);
        }
    }

    fn ui(&mut self, ctx: &Context, ui: &mut Ui, s: &mut State) {
        self.0.ui(ctx, ui, s);
        let ghost u1 = *ui;
        let ghost m1 = *s;
        self.1.ui(ctx, ui, s);
        let ghost u2 = *ui;
        let ghost m2 = *s;
        self.2.ui(ctx, ui, s);
        proof {
            assert(old(self).0.ui_rel(*ctx, *old(ui), *old(s), self.0, u1, m1));
            assert(old(self).1.ui_rel(*ctx, u1, m1, self.1, u2, m2));
        }
    }
}

impl<
    State,
    C1: Component<State>,
    C2: Component<State>,
    C3: Component<State>,
    C4: Component<State>,
> Component<State> for (C1, C2, C3, C4) {
    type Input = (C1::Input, C2::Input, C3::Input, C4::Input);

    open spec fn input_inv(input: Self::Input) -> bool {
        &&& C1::input_inv(input.0)
        &&& C2::input_inv(input.1)
        &&& C3::input_inv(input.2)
        &&& C4::input_inv(input.3)
    }

    open spec fn made(input: Self::Input) -> Self {
        (C1::made(input.0), C2::made(input.1), C3::made(input.2), C4::made(input.3))
    }

    open spec fn inv(self) -> bool {
        self.0.inv() && self.1.inv() && self.2.inv() && self.3.inv()
    }

    open spec fn process_req(self, ctx: Context, s: State) -> bool {
        &&& self.0.process_req(ctx, s)
        &&& forall|c1: C1, m: State|
            #[trigger] self.0.process_rel(ctx, s, c1, m) ==> {
                &&& self.1.process_req(ctx, m)
                &&& forall|c2: C2, m2: State|
                    #[trigger] self.1.process_rel(ctx, m, c2, m2) ==> {
                        &&& self.2.process_req(ctx, m2)
                        &&& forall|c3: C3, m3: State|
                            #[trigger] self.2.process_rel(ctx, m2, c3, m3)
                                ==> self.3.process_req(ctx, m3)
                    }
            }
    }

    open spec fn process_rel(self, ctx: Context, s: State, new_self: Self, new_s: State) -> bool {
        exists|m1: State, m2: State, m3: State|
            #![trigger self.0.process_rel(ctx, s, new_self.0, m1), self.1.process_rel(ctx, m1, new_self.1, m2), self.2.process_rel(ctx, m2, new_self.2, m3)]
            {
                &&& self.0.process_rel(ctx, s, new_self.0, m1)
                &&& self.1.process_rel(ctx, m1, new_self.1, m2)
                &&& self.2.process_rel(ctx, m2, new_self.2, m3)
                &&& self.3.process_rel(ctx, m3, new_self.3, new_s)
            }
    }

    open spec fn render_req(self, ctx: Context, s: State) -> bool {
        &&& self.0.render_req(ctx, s)
        &&& self.1.render_req(ctx, s)
        &&& self.2.render_req(ctx, s)
        &&& self.3.render_req(ctx, s)
    }

    open spec fn render_rel(self, ctx: Context, s: State, emitted: Seq<DrawCmd>) -> bool {
        exists|e1: Seq<DrawCmd>, e2: Seq<DrawCmd>, e3: Seq<DrawCmd>, e4: Seq<DrawCmd>|
            #![trigger self.0.render_rel(ctx, s, e1), self.1.render_rel(ctx, s, e2), self.2.render_rel(ctx, s, e3), self.3.render_rel(ctx, s, e4)]
            {
                &&& emitted == e1 + e2 + e3 + e4
                &&& self.0.render_rel(ctx, s, e1)
                &&& self.1.render_rel(ctx, s, e2)
                &&& self.2.render_rel(ctx, s, e3)
                &&& self.3.render_rel(ctx, s, e4)
            }
    }

    open spec fn ui_req(self, ctx: Context, ui: Ui, s: State) -> bool {
        &&& self.0.ui_req(ctx, ui, s)
        &&& forall|c1: C1, u: Ui, m: State|
            #[trigger] self.0.ui_rel(ctx, ui, s, c1, u, m) ==> {
                &&& self.1.ui_req(ctx, u, m)
                &&& forall|c2: C2, u2: Ui, m2: State|
                    #[trigger] self.1.ui_rel(ctx, u, m, c2, u2, m2) ==> {
                        &&& self.2.ui_req(ctx, u2, m2)
                        &&& forall|c3: C3, u3: Ui, m3: State|
                            #[trigger] self.2.ui_rel(ctx, u2, m2, c3, u3, m3)
                                ==> self.3.ui_req(ctx, u3, m3)
                    }
            }
    }

    open spec fn ui_rel(self, ctx: Context, ui: Ui, s: State, new_self: Self, new_ui: Ui, new_s: State) -> bool {
        exists|u1: Ui, m1: State, u2: Ui, m2: State, u3: Ui, m3: State|
            #![trigger self.0.ui_rel(ctx, ui, s, new_self.0, u1, m1), self.1.ui_rel(ctx, u1, m1, new_self.1, u2, m2), self.2.ui_rel(ctx, u2, m2, new_self.2, u3, m3)]
            {
                &&& self.0.ui_rel(ctx, ui, s, new_self.0, u1, m1)
                &&& self.1.ui_rel(ctx, u1, m1, new_self.1, u2, m2)
                &&& self.2.ui_rel(ctx, u2, m2, new_self.2, u3, m3)
                &&& self.3.ui_rel(ctx, u3, m3, new_self.3, new_ui, new_s)
            }
    }

    fn instantiate(input: Self::Input) -> (r: Self) {
        let (i1, i2, i3, i4) = input;
        (C1::instantiate(i1), C2::instantiate(i2), C3::instantiate(i3), C4::instantiate(i4))
    }

    fn process(&mut self, ctx: &Context, s: &mut State) {
        self.0.process(ctx, s);
        let ghost m1 = *s;
        self.1.process(ctx, s);
        let ghost m2 = *s;
        self.2.process(ctx, s);
        let ghost m3 = *s;
        self.3.process(ctx, s);
        proof {
            assert(old(self).0.process_rel(*ctx, *old(s), self.0, m1));
            assert(old(self).1.process_rel(*ctx, m1, self.1, m2));
            assert(old(self).2.process_rel(*ctx, m2, self.2, m3));
        }
    }

    fn render(&self, ctx: &Context, s: &State, out: &mut Frame) {
        let ghost n0 = out@.len() as int;
        self.0.render(ctx, s, out);
        let ghost n1 = out@.len() as int;
        let ghost e1 = out@.skip(n0);
        self.1.render(ctx, s, out);
        let ghost n2 = out@.len() as int;
        let ghost e2 = out@.skip(n1);
        self.2.render(ctx, s, out);
        let ghost n3 = out@.len() as int;
        let ghost e3 = out@.skip(n2);
        self.3.render(ctx, s, out);
        proof {
            let emitted = out@.skip(n0);
            let e4 = out@.skip(n3);
            assert(out@.take(n1).skip(n0) =~= e1);
            assert(out@.take(n2).skip(n1) =~= e2);
            assert(out@.take(n3).skip(n2) =~= e3);
            assert(emitted =~= e1 + e2 + e3 + e4);
            assert(self.0.render_rel(*ctx, *s, e1));
            assert(self.1.render_rel(*ctx, *s, e2));
            assert(self.2.render_rel(*ctx, *s, e3));
            assert(out@.take(n0) =~= old(out)@);
        }
    }

    fn ui(&mut self, ctx: &Context, ui: &mut Ui, s: &mut State) {
        self.0.ui(ctx, ui, s);
        let ghost u1 = *ui;
        let ghost m1 = *s;
        self.1.ui(ctx, ui, s);
        let ghost u2 = *ui;
        let ghost m2 = *s;
        self.2.ui(ctx, ui, s);
        let ghost u3 = *ui;
        let ghost m3 = *s;
        self.3.ui(ctx, ui, s);
        proof {
            assert(old(self).0.ui_rel(*ctx, *old(ui), *old(s), self.0, u1, m1));
            assert(old(self).1.ui_rel(*ctx, u1, m1, self.1, u2, m2));
            assert(old(self).2.ui_rel(*ctx, u2, m2, self.2, u3, m3));
        }
    }
}

/// Tuple children run strictly left to right against the shared
/// state: when each of a 3-tuple's children increments a counter
/// state by one, one `process` pass over the tuple leaves the counter
/// exactly three higher.
pub proof fn lemma_tuple3_counts_in_order<
    C1: Component<i64>,
    C2: Component<i64>,
    C3: Component<i64>,
>(t: (C1, C2, C3), ctx: Context, s: i64, new_t: (C1, C2, C3), new_s: i64)
    requires
        t.process_rel(ctx, s, new_t, new_s),
        forall|x: i64, c: C1, y: i64| #[trigger] t.0.process_rel(ctx, x, c, y) ==> y == x + 1,
        forall|x: i64, c: C2, y: i64| #[trigger] t.1.process_rel(ctx, x, c, y) ==> y == x + 1,
        forall|x: i64, c: C3, y: i64| #[trigger] t.2.process_rel(ctx, x, c, y) ==> y == x + 1,
    ensures
        new_s == s + 3,
{
}

} // verus!
