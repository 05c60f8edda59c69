//! The background-clearing node.

use vstd::prelude::*;

use crate::component::Component;
use crate::context::Context;
use crate::frame::{Color, DrawCmd, Frame};
use crate::ui::Ui;

verus! {

/// Clears the whole target to the colour the state holds; place one
/// among the first drawn nodes so everything else draws over it.
pub struct Background;

impl Component<Color> for Background {
    type Input = ();

    open spec fn input_inv(input: Self::Input) -> bool {
        true
    }

    open spec fn made(input: Self::Input) -> Self {
        Background
    }

    open spec fn inv(self) -> bool {
        true
    }

    open spec fn process_req(self, ctx: Context, s: Color) -> bool {
        true
    }

    open spec fn process_rel(self, ctx: Context, s: Color, new_self: Self, new_s: Color) -> bool {
        new_s == s
    }

    open spec fn render_req(self, ctx: Context, s: Color) -> bool {
        true
    }

    open spec fn render_rel(self, ctx: Context, s: Color, emitted: Seq<DrawCmd>) -> bool {
        emitted == seq![DrawCmd::Clear { color: s }]
    }

    open spec fn ui_req(self, ctx: Context, ui: Ui, s: Color) -> bool {
        true
    }

    open spec fn ui_rel(self, ctx: Context, ui: Ui, s: Color, new_self: Self, new_ui: Ui, new_s: Color) -> bool {
        new_ui == ui && new_s == s
    }

    fn instantiate(input: Self::Input) -> (r: Self) {
        Background
    }

    fn process(&mut self, ctx: &Context, s: &mut Color) {
    }

    fn render(&self, ctx: &Context, s: &Color, out: &mut Frame) {
        out.clear_background(*s);
        proof {
            assert(out@.take(old(out)@.len() as int) =~= old(out)@);
            assert(out@.skip(old(out)@.len() as int) =~= seq![DrawCmd::Clear { color: *s }]);
        }
    }

    fn ui(&mut self, ctx: &Context, ui: &mut Ui, s: &mut Color) {
    }
}

} // verus!
