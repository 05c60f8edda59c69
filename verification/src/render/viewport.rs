//! A fixed-size viewport the child tree lives in.

use vstd::prelude::*;

use crate::component::Component;
use crate::context::Context;
use crate::fixed::MAX_MAGNITUDE;
use crate::frame::{DrawCmd, Frame};
use crate::ui::Ui;

verus! {

/// The context the child sees: the viewport replaced by the node's
/// own size, everything else carried over from the ambient frame.
pub open spec fn sub_context_of(size: (i64, i64), ctx: Context, sub: Context) -> bool {
    &&& sub.viewport_w == size.0
    &&& sub.viewport_h == size.1
    &&& sub.window_w == ctx.window_w
    &&& sub.window_h == ctx.window_h
    &&& sub.delta == ctx.delta
    &&& sub.mouse_x == ctx.mouse_x
    &&& sub.mouse_y == ctx.mouse_y
    &&& sub.keys_down@ == ctx.keys_down@
}

/// Runs its child against a context whose viewport is this fixed
/// size; when rendering, the child's commands are wrapped in a
/// viewport scope so the host draws them into an off-screen target of
/// that size and scales it onto the window.
pub struct Viewport<Child> {
    pub size: (i64, i64),
    pub child: Child,
}

/// The construction input of a [`Viewport`]: the child and the
/// viewport size.
pub struct ScreenSizeConfig<Child> {
    pub child: Child,
    pub size: (i64, i64),
}

impl<Child> Viewport<Child> {
    /// Builds the viewport node around `child`.
    pub fn new<T>(size: (i64, i64), child: Child) -> (r: Self)
        where
            Child: Component<T>,
        requires
            0 < size.0 <= MAX_MAGNITUDE,
            0 < size.1 <= MAX_MAGNITUDE,
        ensures
            r == (Viewport { size, child }),
            child.inv() ==> <Self as Component<T>>::inv(r),
    {
        Viewport { size, child }
    }

    /// The context handed to the child: own size, ambient frame data.
    fn create_context(&self, ctx: &Context) -> (r: Context)
        requires
            0 < self.size.0 <= MAX_MAGNITUDE,
            0 < self.size.1 <= MAX_MAGNITUDE,
        ensures
            sub_context_of(self.size, *ctx, r),
    {
        let keys = ctx.keys_down.clone();
        proof {
            assert(keys@ =~= ctx.keys_down@);
        }
        Context {
            viewport_w: self.size.0,
            viewport_h: self.size.1,
            window_w: ctx.window_w,
            window_h: ctx.window_h,
            delta: ctx.delta,
            mouse_x: ctx.mouse_x,
            mouse_y: ctx.mouse_y,
            keys_down: keys,
        }
    }
}

impl<T, Child: Component<T>> Component<T> for Viewport<Child> {
    type Input = ScreenSizeConfig<Child>;

    open spec fn input_inv(input: Self::Input) -> bool {
        &&& input.child.inv()
        &&& 0 < input.size.0 <= MAX_MAGNITUDE
        &&& 0 < input.size.1 <= MAX_MAGNITUDE
    }

    open spec fn made(input: Self::Input) -> Self {
        Viewport { size: input.size, child: input.child }
    }

    open spec fn inv(self) -> bool {
        &&& self.child.inv()
        &&& 0 < self.size.0 <= MAX_MAGNITUDE
        &&& 0 < self.size.1 <= MAX_MAGNITUDE
    }

    open spec fn process_req(self, ctx: Context, s: T) -> bool {
        forall|sub: Context|
            #[trigger] sub_context_of(self.size, ctx, sub) ==> self.child.process_req(sub, s)
    }

    open spec fn process_rel(self, ctx: Context, s: T, new_self: Self, new_s: T) -> bool {
        &&& new_self.size == self.size
        &&& exists|sub: Context|
            #[trigger] sub_context_of(self.size, ctx, sub) && self.child.process_rel(
                sub,
                s,
                new_self.child,
                new_s,
            )
    }

    open spec fn render_req(self, ctx: Context, s: T) -> bool {
        forall|sub: Context|
            #[trigger] sub_context_of(self.size, ctx, sub) ==> self.child.render_req(sub, s)
    }

    open spec fn render_rel(self, ctx: Context, s: T, emitted: Seq<DrawCmd>) -> bool {
        exists|sub: Context, e: Seq<DrawCmd>|
            #![trigger sub_context_of(self.size, ctx, sub), self.child.render_rel(sub, s, e)]
            {
                &&& sub_context_of(self.size, ctx, sub)
                &&& self.child.render_rel(sub, s, e)
                &&& emitted == seq![DrawCmd::ViewportBegin { w: self.size.0, h: self.size.1 }] + e
                    + seq![DrawCmd::ViewportEnd]
            }
    }

    open spec fn ui_req(self, ctx: Context, ui: Ui, s: T) -> bool {
        forall|sub: Context|
            #[trigger] sub_context_of(self.size, ctx, sub) ==> self.child.ui_req(sub, ui, s)
    }

    open spec fn ui_rel(self, ctx: Context, ui: Ui, s: T, new_self: Self, new_ui: Ui, new_s: T) -> bool {
        &&& new_self.size == self.size
        &&& exists|sub: Context|
            #[trigger] sub_context_of(self.size, ctx, sub) && self.child.ui_rel(
                sub,
                ui,
                s,
                new_self.child,
                new_ui,
                new_s,
            )
    }

    fn instantiate(input: Self::Input) -> (r: Self) {
        Viewport { size: input.size, child: input.child }
    }

    fn process(&mut self, ctx: &Context, s: &mut T) {
        let sub = self.create_context(ctx);
        self.child.process(&sub, s);
    }

    fn render(&self, ctx: &Context, s: &T, out: &mut Frame) {
        let sub = self.create_context(ctx);
        let ghost a0 = out@;
        let ghost n0 = out@.len() as int;
        out.push(DrawCmd::ViewportBegin { w: self.size.0, h: self.size.1 });
        let ghost a1 = out@;
        let ghost n1 = out@.len() as int;
        self.child.render(&sub, s, out);
        let ghost a2 = out@;
        let ghost n2 = out@.len() as int;
        let ghost e = out@.skip(n1);
        out.push(DrawCmd::ViewportEnd);
        proof {
            assert(a2.take(n1) == a1);
            assert(out@ =~= a2.push(DrawCmd::ViewportEnd));
            assert forall|i: int| 0 <= i < n0 implies out@[i] == a0[i] by {
                assert(out@[i] == a2[i]);
                assert(a2[i] == a2.take(n1)[i]);
                assert(a1[i] == a0[i]);
            }
            assert(out@.take(n0) =~= a0);
            assert(a2.take(n2).skip(n1) =~= e);
            assert(a1 =~= a0.push(DrawCmd::ViewportBegin { w: self.size.0, h: self.size.1 }));
            assert(a2 =~= a1 + e);
            assert(out@ =~= a0 + seq![
                DrawCmd::ViewportBegin { w: self.size.0, h: self.size.1 },
            ] + e + seq![DrawCmd::ViewportEnd]);
            assert(out@.skip(n0) =~= seq![
                DrawCmd::ViewportBegin { w: self.size.0, h: self.size.1 },
            ] + e + seq![DrawCmd::ViewportEnd]);
            assert(self.child.render_rel(sub, *s, e));
        }
    }

    fn ui(&mut self, ctx: &Context, ui: &mut Ui, s: &mut T) {
        let sub = self.create_context(ctx);
        self.child.ui(&sub, ui, s);
    }
}

} // verus!
