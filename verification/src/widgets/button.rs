//! The button widget node.

use vstd::prelude::*;

use crate::component::Component;
use crate::context::Context;
use crate::frame::{DrawCmd, Frame};
use crate::ui::{Ui, UiWidget};

verus! {

/// A button's geometry, label, highlight flag and whatever extra data
/// the click handler wants to change.
#[derive(Debug)]
pub struct ButtonProperties<T> {
    pub size: (i64, i64),
    pub selected: bool,
    pub position: (i64, i64),
    pub extra_data: T,
    pub label: String,
}

/// Declares a button each UI pass and, when the user pressed it, runs
/// `on_click` over the whole properties value.
pub struct Button<OnClick> {
    pub on_click: OnClick,
}

impl<T, OnClick: Fn(&ButtonProperties<T>) -> ButtonProperties<T>> Component<
    ButtonProperties<T>,
> for Button<OnClick> {
    type Input = OnClick;

    open spec fn input_inv(input: Self::Input) -> bool {
        true
    }

    open spec fn made(input: Self::Input) -> Self {
        Button { on_click: input }
    }

    open spec fn inv(self) -> bool {
        true
    }

    open spec fn process_req(self, ctx: Context, s: ButtonProperties<T>) -> bool {
        true
    }

    open spec fn process_rel(
        self,
        ctx: Context,
        s: ButtonProperties<T>,
        new_self: Self,
        new_s: ButtonProperties<T>,
    ) -> bool {
        new_s == s
    }

    open spec fn render_req(self, ctx: Context, s: ButtonProperties<T>) -> bool {
        true
    }

    open spec fn render_rel(self, ctx: Context, s: ButtonProperties<T>, emitted: Seq<DrawCmd>) -> bool {
        emitted == Seq::<DrawCmd>::empty()
    }

    open spec fn ui_req(self, ctx: Context, ui: Ui, s: ButtonProperties<T>) -> bool {
        ui.spec_next_response() is Clicked ==> call_requires(self.on_click, (&s,))
    }

    open spec fn ui_rel(
        self,
        ctx: Context,
        ui: Ui,
        s: ButtonProperties<T>,
        new_self: Self,
        new_ui: Ui,
        new_s: ButtonProperties<T>,
    ) -> bool {
        &&& new_self == self
        &&& ui.spec_after_interactive(
            new_ui,
            UiWidget::Button {
                x: s.position.0,
                y: s.position.1,
                w: s.size.0,
                h: s.size.1,
                label: s.label,
                selected: s.selected,
            },
        )
        &&& if ui.spec_next_response() is Clicked {
            call_ensures(self.on_click, (&s,), new_s)
        } else {
            new_s == s
        }
    }

    fn instantiate(input: Self::Input) -> (r: Self) {
        Button { on_click: input }
    }

    fn process(&mut self, ctx: &Context, s: &mut ButtonProperties<T>) {
    }

    fn render(&self, ctx: &Context, s: &ButtonProperties<T>, out: &mut Frame) {
        proof {
            assert(out@.take(out@.len() as int) =~= out@);
            assert(out@.skip(out@.len() as int) =~= Seq::<DrawCmd>::empty());
        }
    }

    fn ui(&mut self, ctx: &Context, ui: &mut Ui, s: &mut ButtonProperties<T>) {
        let label = s.label.clone();
        let clicked = ui.button(s.position.0, s.position.1, s.size.0, s.size.1, label, s.selected);
        if clicked {
            let updated = (self.on_click)(s);
            *s = updated;
        }
    }
}

} // verus!
