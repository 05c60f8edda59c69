//! The checkbox widget node.

use vstd::prelude::*;

use crate::component::Component;
use crate::context::Context;
use crate::frame::{DrawCmd, Frame};
use crate::ui::{Ui, UiResponse, UiWidget};

verus! {

/// The checkbox's current value and its label.
#[derive(Debug)]
pub struct CheckboxProperties {
    pub state: bool,
    pub label: String,
}

/// Declares a checkbox over the state's flag each UI pass; the user's
/// response replaces the flag.
pub struct CheckBox;

impl Component<CheckboxProperties> for CheckBox {
    type Input = ();

    open spec fn input_inv(input: Self::Input) -> bool {
        true
    }

    open spec fn made(input: Self::Input) -> Self {
        CheckBox
    }

    open spec fn inv(self) -> bool {
        true
    }

    open spec fn process_req(self, ctx: Context, s: CheckboxProperties) -> bool {
        true
    }

    open spec fn process_rel(
        self,
        ctx: Context,
        s: CheckboxProperties,
        new_self: Self,
        new_s: CheckboxProperties,
    ) -> bool {
        new_s == s
    }

    open spec fn render_req(self, ctx: Context, s: CheckboxProperties) -> bool {
        true
    }

    open spec fn render_rel(self, ctx: Context, s: CheckboxProperties, emitted: Seq<DrawCmd>) -> bool {
        emitted == Seq::<DrawCmd>::empty()
    }

    open spec fn ui_req(self, ctx: Context, ui: Ui, s: CheckboxProperties) -> bool {
        true
    }

    open spec fn ui_rel(
        self,
        ctx: Context,
        ui: Ui,
        s: CheckboxProperties,
        new_self: Self,
        new_ui: Ui,
        new_s: CheckboxProperties,
    ) -> bool {
        &&& ui.spec_after_interactive(
            new_ui,
            UiWidget::Checkbox { label: s.label, value: s.state },
        )
        &&& new_s.label == s.label
        &&& new_s.state == (match ui.spec_next_response() {
            UiResponse::SetBool(b) => b,
            _ => s.state,
        })
    }

    fn instantiate(input: Self::Input) -> (r: Self) {
        CheckBox
    }

    fn process(&mut self, ctx: &Context, s: &mut CheckboxProperties) {
    }

    fn render(&self, ctx: &Context, s: &CheckboxProperties, out: &mut Frame) {
        proof {
            assert(out@.take(out@.len() as int) =~= out@);
            assert(out@.skip(out@.len() as int) =~= Seq::<DrawCmd>::empty());
        }
    }

    fn ui(&mut self, ctx: &Context, ui: &mut Ui, s: &mut CheckboxProperties) {
        let label = s.label.clone();
        ui.checkbox(label, &mut s.state);
    }
}

} // verus!
