//! A component that does nothing in any pass.

use vstd::prelude::*;

use crate::component::Component;
use crate::context::Context;
use crate::frame::{DrawCmd, Frame};
use crate::ui::Ui;

verus! {

/// Runs no pass: the state is untouched, nothing is drawn, no widget
/// is declared. Useful as an empty branch of a combinator.
pub struct Never;

impl<State> Component<State> for Never {
    type Input = ();

    open spec fn input_inv(input: Self::Input) -> bool {
        true
    }

    open spec fn made(input: Self::Input) -> Self {
        Never
    }

    open spec fn inv(self) -> bool {
        true
    }

    open spec fn process_req(self, ctx: Context, s: State) -> bool {
        true
    }

    open spec fn process_rel(self, ctx: Context, s: State, new_self: Self, new_s: State) -> bool {
        new_s == s
    }

    open spec fn render_req(self, ctx: Context, s: State) -> bool {
        true
    }

    open spec fn render_rel(self, ctx: Context, s: State, emitted: Seq<DrawCmd>) -> bool {
        emitted == Seq::<DrawCmd>::empty()
    }

    open spec fn ui_req(self, ctx: Context, ui: Ui, s: State) -> bool {
        true
    }

    open spec fn ui_rel(self, ctx: Context, ui: Ui, s: State, new_self: Self, new_ui: Ui, new_s: State) -> bool {
        new_ui == ui && new_s == s
    }

    fn instantiate(input: Self::Input) -> (r: Self) {
        Never
    }

    fn process(&mut self, ctx: &Context, s: &mut State) {
    }

    fn render(&self, ctx: &Context, s: &State, out: &mut Frame) {
        proof {
            assert(out@.take(out@.len() as int) =~= out@);
            assert(out@.skip(out@.len() as int) =~= Seq::<DrawCmd>::empty());
        }
    }

    fn ui(&mut self, ctx: &Context, ui: &mut Ui, s: &mut State) {
    }
}

} // verus!
