//! The text-drawing node.

use vstd::prelude::*;

use crate::component::Component;
use crate::context::Context;
use crate::frame::{Color, DrawCmd, Frame};
use crate::ui::Ui;

verus! {

/// The text to draw and where, in fixed-point viewport coordinates.
#[derive(Debug)]
pub struct TextProperties {
    pub text: String,
    pub location: (i64, i64),
    pub font_size: i64,
    pub color: Color,
}

/// Draws a line of text from its properties.
pub struct Text;

impl Component<TextProperties> for Text {
    type Input = ();

    open spec fn input_inv(input: Self::Input) -> bool {
        true
    }

    open spec fn made(input: Self::Input) -> Self {
        Text
    }

    open spec fn inv(self) -> bool {
        true
    }

    open spec fn process_req(self, ctx: Context, s: TextProperties) -> bool {
        true
    }

    open spec fn process_rel(
        self,
        ctx: Context,
        s: TextProperties,
        new_self: Self,
        new_s: TextProperties,
    ) -> bool {
        new_s == s
    }

    open spec fn render_req(self, ctx: Context, s: TextProperties) -> bool {
        true
    }

    open spec fn render_rel(self, ctx: Context, s: TextProperties, emitted: Seq<DrawCmd>) -> bool {
        emitted == seq![
            DrawCmd::Text {
                text: s.text,
                x: s.location.0,
                y: s.location.1,
                font_size: s.font_size,
                color: s.color,
            },
        ]
    }

    open spec fn ui_req(self, ctx: Context, ui: Ui, s: TextProperties) -> bool {
        true
    }

    open spec fn ui_rel(
        self,
        ctx: Context,
        ui: Ui,
        s: TextProperties,
        new_self: Self,
        new_ui: Ui,
        new_s: TextProperties,
    ) -> bool {
        new_ui == ui && new_s == s
    }

    fn instantiate(input: Self::Input) -> (r: Self) {
        Text
    }

    fn process(&mut self, ctx: &Context, s: &mut TextProperties) {
    }

    fn render(&self, ctx: &Context, s: &TextProperties, out: &mut Frame) {
        let shown = s.text.clone();
        out.draw_text(shown, s.location.0, s.location.1, s.font_size, s.color);
        proof {
            assert(out@.take(old(out)@.len() as int) =~= old(out)@);
            assert(out@.skip(old(out)@.len() as int) =~= seq![
                DrawCmd::Text {
                    text: s.text,
                    x: s.location.0,
                    y: s.location.1,
                    font_size: s.font_size,
                    color: s.color,
                },
            ]);
        }
    }

    fn ui(&mut self, ctx: &Context, ui: &mut Ui, s: &mut TextProperties) {
    }
}

} // verus!
