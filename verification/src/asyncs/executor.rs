//! The node that polls a loading state once per frame.

use vstd::prelude::*;

use crate::asyncs::state::{poll_step_rel, AsyncState};
use crate::component::Component;
use crate::context::Context;
use crate::frame::{DrawCmd, Frame};
use crate::ui::Ui;

verus! {

/// Drives an [`AsyncState`] forward: each `process` pass performs one
/// non-blocking poll step with the host's `poll` function; `render`
/// and `ui` do nothing. The poll never stalls the frame: either the
/// computation completed this step and the state becomes loaded, or
/// the frame simply goes on.
pub struct AsyncExecutor<Poll> {
    pub poll: Poll,
}

impl<Poll> AsyncExecutor<Poll> {
    /// Builds the executor around the host's poll function.
    pub fn new(poll: Poll) -> (r: Self)
        ensures
            r == (AsyncExecutor { poll }),
    {
        AsyncExecutor { poll }
    }
}

impl<T, F, Poll: Fn(F) -> (F, Option<T>)> Component<AsyncState<T, F>> for AsyncExecutor<Poll> {
    type Input = Poll;

    open spec fn input_inv(input: Self::Input) -> bool {
        true
    }

    open spec fn made(input: Self::Input) -> Self {
        AsyncExecutor { poll: input }
    }

    open spec fn inv(self) -> bool {
        true
    }

    open spec fn process_req(self, ctx: Context, s: AsyncState<T, F>) -> bool {
        forall|f: F| #[trigger] call_requires(self.poll, (f,))
    }

    open spec fn process_rel(
        self,
        ctx: Context,
        s: AsyncState<T, F>,
        new_self: Self,
        new_s: AsyncState<T, F>,
    ) -> bool {
        new_self == self && poll_step_rel(self.poll, s, new_s)
    }

    open spec fn render_req(self, ctx: Context, s: AsyncState<T, F>) -> bool {
        true
    }

    open spec fn render_rel(self, ctx: Context, s: AsyncState<T, F>, emitted: Seq<DrawCmd>) -> bool {
        emitted == Seq::<DrawCmd>::empty()
    }

    open spec fn ui_req(self, ctx: Context, ui: Ui, s: AsyncState<T, F>) -> bool {
        true
    }

    open spec fn ui_rel(
        self,
        ctx: Context,
        ui: Ui,
        s: AsyncState<T, F>,
        new_self: Self,
        new_ui: Ui,
        new_s: AsyncState<T, F>,
    ) -> bool {
        new_self == self && new_ui == ui && new_s == s
    }

    fn instantiate(input: Self::Input) -> (r: Self) {
        AsyncExecutor { poll: input }
    }

    fn process(&mut self, ctx: &Context, s: &mut AsyncState<T, F>) {
        s.process(&self.poll);
    }

    fn render(&self, ctx: &Context, s: &AsyncState<T, F>, out: &mut Frame) {
        proof {
            assert(out@.take(out@.len() as int) =~= out@);
            assert(out@.skip(out@.len() as int) =~= Seq::<DrawCmd>::empty());
        }
    }

    fn ui(&mut self, ctx: &Context, ui: &mut Ui, s: &mut AsyncState<T, F>) {
    }
}

} // verus!
