//! Conditional execution with an optional fallback child.

use vstd::prelude::*;

use crate::component::Component;
use crate::context::Context;
use crate::frame::{DrawCmd, Frame};
use crate::ui::Ui;

verus! {

/// Gates its child's `process` and `ui` passes behind a decider
/// predicate, reporting whether the child ran; `render` is not gated.
pub struct OnlyRenderOn<Child, Decider> {
    pub child: Child,
    pub decider: Decider,
}

impl<Child, Decider> OnlyRenderOn<Child, Decider> {
    /// Builds the conditional wrapper around `child`, switched by `decider`.
    pub fn new<State>(child: Child, decider: Decider) -> (r: Self)
        where
            Child: Component<State>,
            Decider: Fn(&State) -> bool,
        ensures
            r == (OnlyRenderOn { child, decider }),
            child.inv() ==> r.inv(),
    {
        OnlyRenderOn { child, decider }
    }

    /// Runs the child's `process` pass only when the decider allows
    /// it; reports whether the child ran.
    pub fn process<State>(&mut self, ctx: &Context, s: &mut State) -> (ran: bool)
        where
            Child: Component<State>,
            Decider: Fn(&State) -> bool,
        requires
            old(self).inv(),
            old(self).process_req(*ctx, *old(s)),
        ensures
            final(self).inv(),
            final(self).decider == old(self).decider,
            call_ensures(old(self).decider, (&*old(s),), ran),
            ran ==> old(self).child.process_rel(*ctx, *old(s), final(self).child, *final(s)),
            !ran ==> *final(self) == *old(self) && *final(s) == *old(s),
    {
        if self.should_process(s) {
            self.child.process(ctx, s);
            true
        } else {
            false
        }
    }

    /// Runs the child's `ui` pass only when the decider allows it;
    /// reports whether the child ran.
    pub fn ui<State>(&mut self, ctx: &Context, ui: &mut Ui, s: &mut State) -> (ran: bool)
        where
            Child: Component<State>,
            Decider: Fn(&State) -> bool,
        requires
            old(self).inv(),
            old(self).ui_req(*ctx, *old(ui), *old(s)),
        ensures
            final(self).inv(),
            final(self).decider == old(self).decider,
            call_ensures(old(self).decider, (&*old(s),), ran),
            ran ==> old(self).child.ui_rel(
                *ctx,
                *old(ui),
                *old(s),
                final(self).child,
                *final(ui),
                *final(s),
            ),
            !ran ==> *final(self) == *old(self) && *final(ui) == *old(ui) && *final(s) == *old(s),
    {
        if self.should_process(s) {
            self.child.ui(ctx, ui, s);
            true
        } else {
            false
        }
    }

    /// Asks the decider whether the child's mutating passes may run.
    pub fn should_process<State>(&self, s: &State) -> (r: bool)
        where
            Child: Component<State>,
            Decider: Fn(&State) -> bool,
        requires
            call_requires(self.decider, (s,)),
        ensures
            call_ensures(self.decider, (s,), r),
    {
        (self.decider)(s)
    }
}

impl<State, Child: Component<State>, Decider: Fn(&State) -> bool> Component<State> for OnlyRenderOn<
    Child,
    Decider,
> {
    type Input = (Child, Decider);

    open spec fn input_inv(input: Self::Input) -> bool {
        input.0.inv()
    }

    open spec fn made(input: Self::Input) -> Self {
        OnlyRenderOn { child: input.0, decider: input.1 }
    }

    open spec fn inv(self) -> bool {
        self.child.inv()
    }

    open spec fn process_req(self, ctx: Context, s: State) -> bool {
        &&& call_requires(self.decider, (&s,))
        &&& forall|b: bool|
            #[trigger] call_ensures(self.decider, (&s,), b) && b ==> self.child.process_req(ctx, s)
    }

    open spec fn process_rel(self, ctx: Context, s: State, new_self: Self, new_s: State) -> bool {
        &&& new_self.decider == self.decider
        &&& exists|b: bool|
            #[trigger] call_ensures(self.decider, (&s,), b) && if b {
                self.child.process_rel(ctx, s, new_self.child, new_s)
            } else {
                new_self == self && new_s == s
            }
    }

    open spec fn render_req(self, ctx: Context, s: State) -> bool {
        self.child.render_req(ctx, s)
    }

    open spec fn render_rel(self, ctx: Context, s: State, emitted: Seq<DrawCmd>) -> bool {
        self.child.render_rel(ctx, s, emitted)
    }

    open spec fn ui_req(self, ctx: Context, ui: Ui, s: State) -> bool {
        &&& call_requires(self.decider, (&s,))
        &&& forall|b: bool|
            #[trigger] call_ensures(self.decider, (&s,), b) && b ==> self.child.ui_req(ctx, ui, s)
    }

    open spec fn ui_rel(self, ctx: Context, ui: Ui, s: State, new_self: Self, new_ui: Ui, new_s: State) -> bool {
        &&& new_self.decider == self.decider
        &&& exists|b: bool|
            #[trigger] call_ensures(self.decider, (&s,), b) && if b {
                self.child.ui_rel(ctx, ui, s, new_self.child, new_ui, new_s)
            } else {
                new_self == self && new_ui == ui && new_s == s
            }
    }

    fn instantiate(input: Self::Input) -> (r: Self) {
        let (child, decider) = input;
        OnlyRenderOn { child, decider }
    }

    fn process(&mut self, ctx: &Context, s: &mut State) {
        self.process(ctx, s);
    }

    fn render(&self, ctx: &Context, s: &State, out: &mut Frame) {
        self.child.render(ctx, s, out);
    }

    fn ui(&mut self, ctx: &Context, ui: &mut Ui, s: &mut State) {
        self.ui(ctx, ui, s);
    }
}

/// One way an [`OnlyRenderWith`] `render` pass can split its output:
/// the gated child emitted `e1`; the decider answered `b`, and `e2` is
/// what the fallback emitted, empty when `b` held.
pub open spec fn render_split<
    State,
    Child: Component<State>,
    Decider: Fn(&State) -> bool,
    OnPausedChild: Component<State>,
>(
    c: OnlyRenderWith<Child, Decider, OnPausedChild>,
    ctx: Context,
    s: State,
    e1: Seq<DrawCmd>,
    e2: Seq<DrawCmd>,
    b: bool,
) -> bool {
    &&& c.child.child.render_rel(ctx, s, e1)
    &&& call_ensures(c.child.decider, (&s,), b)
    &&& if b {
        e2 == Seq::<DrawCmd>::empty()
    } else {
        c.on_paused_child.render_rel(ctx, s, e2)
    }
}

/// Runs `child` when the decider allows it and `on_paused_child`
/// otherwise — mutually exclusive for `process` and `ui`; for `render`
/// the child always draws and the fallback draws only when the decider
/// is false, so paused visuals keep their last-known-good rendering.
pub struct OnlyRenderWith<Child, Decider, OnPausedChild> {
    pub child: OnlyRenderOn<Child, Decider>,
    pub on_paused_child: OnPausedChild,
}

impl<Child, Decider, OnPausedChild> OnlyRenderWith<Child, Decider, OnPausedChild> {
    /// Builds the pair from the decider, the gated child and the
    /// fallback child.
    pub fn new<State>(decider: Decider, child: Child, on_paused_child: OnPausedChild) -> (r: Self)
        where
            Child: Component<State>,
            Decider: Fn(&State) -> bool,
            OnPausedChild: Component<State>,
        ensures
            r == (OnlyRenderWith { child: OnlyRenderOn { child, decider }, on_paused_child }),
            child.inv() && on_paused_child.inv() ==> r.inv(),
    {
        OnlyRenderWith { child: OnlyRenderOn { child, decider }, on_paused_child }
    }
}

impl<
    State,
    Child: Component<State>,
    Decider: Fn(&State) -> bool,
    OnPausedChild: Component<State>,
> Component<State> for OnlyRenderWith<Child, Decider, OnPausedChild> {
    type Input = (Decider, Child, OnPausedChild);

    open spec fn input_inv(input: Self::Input) -> bool {
        input.1.inv() && input.2.inv()
    }

    open spec fn made(input: Self::Input) -> Self {
        OnlyRenderWith {
            child: OnlyRenderOn { child: input.1, decider: input.0 },
            on_paused_child: input.2,
        }
    }

    open spec fn inv(self) -> bool {
        self.child.child.inv() && self.on_paused_child.inv()
    }

    open spec fn process_req(self, ctx: Context, s: State) -> bool {
        &&& call_requires(self.child.decider, (&s,))
        &&& forall|b: bool| #[trigger] call_ensures(self.child.decider, (&s,), b) ==> if b {
            self.child.child.process_req(ctx, s)
        } else {
            self.on_paused_child.process_req(ctx, s)
        }
    }

    open spec fn process_rel(self, ctx: Context, s: State, new_self: Self, new_s: State) -> bool {
        &&& new_self.child.decider == self.child.decider
        &&& exists|b: bool|
            #[trigger] call_ensures(self.child.decider, (&s,), b) && if b {
                &&& self.child.child.process_rel(ctx, s, new_self.child.child, new_s)
                &&& new_self.on_paused_child == self.on_paused_child
            } else {
                &&& self.on_paused_child.process_rel(ctx, s, new_self.on_paused_child, new_s)
                &&& new_self.child == self.child
            }
    }

    open spec fn render_req(self, ctx: Context, s: State) -> bool {
        &&& self.child.child.render_req(ctx, s)
        &&& call_requires(self.child.decider, (&s,))
        &&& forall|b: bool|
            #[trigger] call_ensures(self.child.decider, (&s,), b) && !b
                ==> self.on_paused_child.render_req(ctx, s)
    }

    open spec fn render_rel(self, ctx: Context, s: State, emitted: Seq<DrawCmd>) -> bool {
        exists|e1: Seq<DrawCmd>, e2: Seq<DrawCmd>, b: bool|
            emitted == e1 + e2 && #[trigger] render_split(self, ctx, s, e1, e2, b)
    }

    open spec fn ui_req(self, ctx: Context, ui: Ui, s: State) -> bool {
        &&& self.child.ui_req(ctx, ui, s)
        &&& forall|g: OnlyRenderOn<Child, Decider>, u: Ui, m: State|
            #[trigger] self.child.ui_rel(ctx, ui, s, g, u, m) ==> {
                &&& call_requires(self.child.decider, (&m,))
                &&& forall|b: bool|
                    #[trigger] call_ensures(self.child.decider, (&m,), b) && !b
                        ==> self.on_paused_child.ui_req(ctx, u, m)
            }
    }

    open spec fn ui_rel(self, ctx: Context, ui: Ui, s: State, new_self: Self, new_ui: Ui, new_s: State) -> bool {
        exists|u: Ui, m: State, b: bool|
            #![trigger self.child.ui_rel(ctx, ui, s, new_self.child, u, m), call_ensures(self.child.decider, (&m,), b)]
            {
                &&& self.child.ui_rel(ctx, ui, s, new_self.child, u, m)
                &&& call_ensures(self.child.decider, (&m,), b)
                &&& if b {
                    &&& new_self.on_paused_child == self.on_paused_child
                    &&& new_ui == u
                    &&& new_s == m
                } else {
                    self.on_paused_child.ui_rel(ctx, u, m, new_self.on_paused_child, new_ui, new_s)
                }
            }
    }

    fn instantiate(input: Self::Input) -> (r: Self) {
        let (decider, child, on_paused_child) = input;
        OnlyRenderWith { child: OnlyRenderOn { child, decider }, on_paused_child }
    }

    fn process(&mut self, ctx: &Context, s: &mut State) {
        if !self.child.process(ctx, s) {
            self.on_paused_child.process(ctx, s);
        }
    }

    fn render(&self, ctx: &Context, s: &State, out: &mut Frame) {
        let ghost n0 = out@.len() as int;
        self.child.render(ctx, s, out);
        let ghost n1 = out@.len() as int;
        let ghost e1 = out@.skip(n0);
        let gate = self.child.should_process(s);
        if !gate {
            self.on_paused_child.render(ctx, s, out);
        }
        proof {
            let emitted = out@.skip(n0);
            let e2 = out@.skip(n1);
            assert(out@.take(n1).skip(n0) =~= e1);
            assert(emitted =~= e1 + e2);
            assert(self.child.child.render_rel(*ctx, *s, e1));
            assert(out@.take(n0) =~= old(out)@);
            if out@.len() == n1 {
                assert(e2 =~= Seq::<DrawCmd>::empty());
            }
            assert(render_split(*self, *ctx, *s, e1, e2, gate));
        }
    }

    fn ui(&mut self, ctx: &Context, ui: &mut Ui, s: &mut State) {
        Component::ui(&mut self.child, ctx, ui, s);
        let ghost u = *ui;
        let ghost m = *s;
        if !self.child.should_process(s) {
            self.on_paused_child.ui(ctx, ui, s);
        }
        proof {
            assert(old(self).child.ui_rel(*ctx, *old(ui), *old(s), self.child, u, m));
        }
    }
}

/// When the decider decides true, one `process` pass runs exactly the
/// gated child and leaves the fallback untouched.
pub proof fn lemma_only_render_with_process_takes_child<
    State,
    Child: Component<State>,
    Decider: Fn(&State) -> bool,
    OnPausedChild: Component<State>,
>(
    c: OnlyRenderWith<Child, Decider, OnPausedChild>,
    ctx: Context,
    s: State,
    new_c: OnlyRenderWith<Child, Decider, OnPausedChild>,
    new_s: State,
)
    requires
        c.process_rel(ctx, s, new_c, new_s),
        forall|b: bool| #[trigger] call_ensures(c.child.decider, (&s,), b) ==> b == true,
    ensures
        c.child.child.process_rel(ctx, s, new_c.child.child, new_s),
        new_c.on_paused_child == c.on_paused_child,
{
}

/// When the decider decides false, one `process` pass runs exactly the
/// fallback and leaves the gated child untouched.
pub proof fn lemma_only_render_with_process_takes_fallback<
    State,
    Child: Component<State>,
    Decider: Fn(&State) -> bool,
    OnPausedChild: Component<State>,
>(
    c: OnlyRenderWith<Child, Decider, OnPausedChild>,
    ctx: Context,
    s: State,
    new_c: OnlyRenderWith<Child, Decider, OnPausedChild>,
    new_s: State,
)
    requires
        c.process_rel(ctx, s, new_c, new_s),
        forall|b: bool| #[trigger] call_ensures(c.child.decider, (&s,), b) ==> b == false,
    ensures
        c.on_paused_child.process_rel(ctx, s, new_c.on_paused_child, new_s),
        new_c.child == c.child,
{
}

/// One `render` pass always emits the gated child's commands; the
/// fallback's commands follow exactly when the decider decides false.
pub proof fn lemma_only_render_with_render_split<
    State,
    Child: Component<State>,
    Decider: Fn(&State) -> bool,
    OnPausedChild: Component<State>,
>(
    c: OnlyRenderWith<Child, Decider, OnPausedChild>,
    ctx: Context,
    s: State,
    emitted: Seq<DrawCmd>,
    decided: bool,
)
    requires
        c.render_rel(ctx, s, emitted),
        forall|b: bool| #[trigger] call_ensures(c.child.decider, (&s,), b) ==> b == decided,
    ensures
        decided ==> c.child.child.render_rel(ctx, s, emitted),
        !decided ==> exists|e1: Seq<DrawCmd>, e2: Seq<DrawCmd>|
            #![trigger c.child.child.render_rel(ctx, s, e1), c.on_paused_child.render_rel(ctx, s, e2)]
            {
                &&& emitted == e1 + e2
                &&& c.child.child.render_rel(ctx, s, e1)
                &&& c.on_paused_child.render_rel(ctx, s, e2)
            },
{
    let (e1, e2, b) = choose|e1: Seq<DrawCmd>, e2: Seq<DrawCmd>, b: bool|
        emitted == e1 + e2 && #[trigger] render_split(c, ctx, s, e1, e2, b);
    if decided {
        assert(emitted =~= e1);
    }
}

/// When the decider's verdict is stable across the pass, one `ui`
/// pass runs the gated child or the fallback, never both.
pub proof fn lemma_only_render_with_ui_exclusive<
    State,
    Child: Component<State>,
    Decider: Fn(&State) -> bool,
    OnPausedChild: Component<State>,
>(
    c: OnlyRenderWith<Child, Decider, OnPausedChild>,
    ctx: Context,
    ui: Ui,
    s: State,
    new_c: OnlyRenderWith<Child, Decider, OnPausedChild>,
    new_ui: Ui,
    new_s: State,
    decided: bool,
)
    requires
        c.ui_rel(ctx, ui, s, new_c, new_ui, new_s),
        forall|x: State, b: bool|
            #[trigger] call_ensures(c.child.decider, (&x,), b) ==> b == decided,
    ensures
        decided ==> {
            &&& c.child.child.ui_rel(ctx, ui, s, new_c.child.child, new_ui, new_s)
            &&& new_c.on_paused_child == c.on_paused_child
        },
        !decided ==> {
            &&& c.on_paused_child.ui_rel(ctx, ui, s, new_c.on_paused_child, new_ui, new_s)
            &&& new_c.child == c.child
        },
{
}

} // verus!
