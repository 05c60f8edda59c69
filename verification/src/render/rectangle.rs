//! The filled-rectangle node.

use vstd::prelude::*;

use crate::component::Component;
use crate::context::Context;
use crate::frame::{Color, DrawCmd, Frame};
use crate::ui::Ui;

verus! {

/// Where and how to draw a rectangle, in fixed-point viewport
/// coordinates.
#[derive(Clone, Copy, Debug, PartialEq, Eq)]
pub struct RectangleProps {
    pub size: (i64, i64),
    pub color: Color,
    pub location: (i64, i64),
}

/// Draws a filled rectangle from its properties.
pub struct Rectangle;

impl Rectangle {
    /// Builds the node.
    pub fn new() -> (r: Self)
        ensures
            r == Rectangle,
    {
        Rectangle
    }
}

impl Component<RectangleProps> for Rectangle {
    type Input = ();

    open spec fn input_inv(input: Self::Input) -> bool {
        true
    }

    open spec fn made(input: Self::Input) -> Self {
        Rectangle
    }

    open spec fn inv(self) -> bool {
        true
    }

    open spec fn process_req(self, ctx: Context, s: RectangleProps) -> bool {
        true
    }

    open spec fn process_rel(
        self,
        ctx: Context,
        s: RectangleProps,
        new_self: Self,
        new_s: RectangleProps,
    ) -> bool {
        new_s == s
    }

    open spec fn render_req(self, ctx: Context, s: RectangleProps) -> bool {
        true
    }

    open spec fn render_rel(self, ctx: Context, s: RectangleProps, emitted: Seq<DrawCmd>) -> bool {
        emitted == seq![
            DrawCmd::Rect {
                x: s.location.0,
                y: s.location.1,
                w: s.size.0,
                h: s.size.1,
                color: s.color,
            },
        ]
    }

    open spec fn ui_req(self, ctx: Context, ui: Ui, s: RectangleProps) -> bool {
        true
    }

    open spec fn ui_rel(
        self,
        ctx: Context,
        ui: Ui,
        s: RectangleProps,
        new_self: Self,
        new_ui: Ui,
        new_s: RectangleProps,
    ) -> bool {
        new_ui == ui && new_s == s
    }

    fn instantiate(input: Self::Input) -> (r: Self) {
        Rectangle::new()
    }

    fn process(&mut self, ctx: &Context, s: &mut RectangleProps) {
    }

    fn render(&self, ctx: &Context, s: &RectangleProps, out: &mut Frame) {
        out.draw_rectangle(s.location.0, s.location.1, s.size.0, s.size.1, s.color);
        proof {
            assert(out@.take(old(out)@.len() as int) =~= old(out)@);
            assert(out@.skip(old(out)@.len() as int) =~= seq![
                DrawCmd::Rect {
                    x: s.location.0,
                    y: s.location.1,
                    w: s.size.0,
                    h: s.size.1,
                    color: s.color,
                },
            ]);
        }
    }

    fn ui(&mut self, ctx: &Context, ui: &mut Ui, s: &mut RectangleProps) {
    }
}

impl Default for Rectangle {
    fn default() -> (r: Self)
        ensures
            r == Rectangle,
    {
        Rectangle::new()
    }
}

} // verus!
