//! The text-input widget node.

use vstd::prelude::*;

use crate::component::Component;
use crate::context::Context;
use crate::frame::{DrawCmd, Frame};
use crate::ui::{Ui, UiResponse, UiWidget};

verus! {

/// A text field's label, masking flag, and current contents.
#[derive(Debug)]
pub struct InputProperties {
    pub is_password: bool,
    pub label: String,
    pub data: String,
}

/// Declares a text input over the state's string each UI pass; the
/// user's response replaces the contents.
pub struct Input;

impl Component<InputProperties> for Input {
    type Input = ();

    open spec fn input_inv(input: Self::Input) -> bool {
        true
    }

    open spec fn made(input: Self::Input) -> Self {
        Input
    }

    open spec fn inv(self) -> bool {
        true
    }

    open spec fn process_req(self, ctx: Context, s: InputProperties) -> bool {
        true
    }

    open spec fn process_rel(
        self,
        ctx: Context,
        s: InputProperties,
        new_self: Self,
        new_s: InputProperties,
    ) -> bool {
        new_s == s
    }

    open spec fn render_req(self, ctx: Context, s: InputProperties) -> bool {
        true
    }

    open spec fn render_rel(self, ctx: Context, s: InputProperties, emitted: Seq<DrawCmd>) -> bool {
        emitted == Seq::<DrawCmd>::empty()
    }

    open spec fn ui_req(self, ctx: Context, ui: Ui, s: InputProperties) -> bool {
        true
    }

    open spec fn ui_rel(
        self,
        ctx: Context,
        ui: Ui,
        s: InputProperties,
        new_self: Self,
        new_ui: Ui,
        new_s: InputProperties,
    ) -> bool {
        &&& ui.spec_after_interactive(
            new_ui,
            UiWidget::InputText { label: s.label, is_password: s.is_password, text: s.data },
        )
        &&& new_s.label == s.label
        &&& new_s.is_password == s.is_password
        &&& new_s.data == (match ui.spec_next_response() {
            UiResponse::SetText(t) => t,
            _ => s.data,
        })
    }

    fn instantiate(input: Self::Input) -> (r: Self) {
        Input
    }

    fn process(&mut self, ctx: &Context, s: &mut InputProperties) {
    }

    fn render(&self, ctx: &Context, s: &InputProperties, out: &mut Frame) {
        proof {
            assert(out@.take(out@.len() as int) =~= out@);
            assert(out@.skip(out@.len() as int) =~= Seq::<DrawCmd>::empty());
        }
    }

    fn ui(&mut self, ctx: &Context, ui: &mut Ui, s: &mut InputProperties) {
        let label = s.label.clone();
        let mut text = String::new();
        core::mem::swap(&mut text, &mut s.data);
        let updated = ui.input_text(label, s.is_password, text);
        s.data = updated;
    }
}

} // verus!
