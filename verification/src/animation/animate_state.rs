//! The frame-time stepper node.

use vstd::prelude::*;

use crate::component::Component;
use crate::context::Context;
use crate::frame::{DrawCmd, Frame};
use crate::ui::Ui;

verus! {

/// Each `process` pass feeds the frame's elapsed time to a function
/// that advances the state by that much.
pub struct AnimateState<Func> {
    pub func: Func,
}

impl<T, Func: Fn(i64, &T) -> T> Component<T> for AnimateState<Func> {
    type Input = Func;

    open spec fn input_inv(input: Self::Input) -> bool {
        true
    }

    open spec fn made(input: Self::Input) -> Self {
        AnimateState { func: input }
    }

    open spec fn inv(self) -> bool {
        true
    }

    open spec fn process_req(self, ctx: Context, s: T) -> bool {
        call_requires(self.func, (ctx.delta, &s))
    }

    open spec fn process_rel(self, ctx: Context, s: T, new_self: Self, new_s: T) -> bool {
        new_self == self && call_ensures(self.func, (ctx.delta, &s), new_s)
    }

    open spec fn render_req(self, ctx: Context, s: T) -> bool {
        true
    }

    open spec fn render_rel(self, ctx: Context, s: T, emitted: Seq<DrawCmd>) -> bool {
        emitted == Seq::<DrawCmd>::empty()
    }

    open spec fn ui_req(self, ctx: Context, ui: Ui, s: T) -> bool {
        true
    }

    open spec fn ui_rel(self, ctx: Context, ui: Ui, s: T, new_self: Self, new_ui: Ui, new_s: T) -> bool {
        new_self == self && new_ui == ui && new_s == s
    }

    fn instantiate(input: Self::Input) -> (r: Self) {
        AnimateState { func: input }
    }

    fn process(&mut self, ctx: &Context, s: &mut T) {
        let frame_time = ctx.get_delta();
        let stepped = (self.func)(frame_time, s);
        *s = stepped;
    }

    fn render(&self, ctx: &Context, s: &T, out: &mut Frame) {
        proof {
            assert(out@.take(out@.len() as int) =~= out@);
            assert(out@.skip(out@.len() as int) =~= Seq::<DrawCmd>::empty());
        }
    }

    fn ui(&mut self, ctx: &Context, ui: &mut Ui, s: &mut T) {
    }
}

} // verus!
