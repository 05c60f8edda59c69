//! The static-label widget node.

use vstd::prelude::*;

use crate::component::Component;
use crate::context::Context;
use crate::frame::{DrawCmd, Frame};
use crate::ui::{Ui, UiWidget};

verus! {

/// A label's position and text.
#[derive(Debug)]
pub struct LabelProperties {
    pub location: (i64, i64),
    pub label: String,
}

/// Declares a static text label each UI pass; consumes no response.
pub struct Label;

impl Component<LabelProperties> for Label {
    type Input = ();

    open spec fn input_inv(input: Self::Input) -> bool {
        true
    }

    open spec fn made(input: Self::Input) -> Self {
        Label
    }

    open spec fn inv(self) -> bool {
        true
    }

    open spec fn process_req(self, ctx: Context, s: LabelProperties) -> bool {
        true
    }

    open spec fn process_rel(
        self,
        ctx: Context,
        s: LabelProperties,
        new_self: Self,
        new_s: LabelProperties,
    ) -> bool {
        new_s == s
    }

    open spec fn render_req(self, ctx: Context, s: LabelProperties) -> bool {
        true
    }

    open spec fn render_rel(self, ctx: Context, s: LabelProperties, emitted: Seq<DrawCmd>) -> bool {
        emitted == Seq::<DrawCmd>::empty()
    }

    open spec fn ui_req(self, ctx: Context, ui: Ui, s: LabelProperties) -> bool {
        true
    }

    open spec fn ui_rel(
        self,
        ctx: Context,
        ui: Ui,
        s: LabelProperties,
        new_self: Self,
        new_ui: Ui,
        new_s: LabelProperties,
    ) -> bool {
        &&& ui.spec_after_passive(
            new_ui,
            UiWidget::Label { x: s.location.0, y: s.location.1, text: s.label },
        )
        &&& new_s == s
    }

    fn instantiate(input: Self::Input) -> (r: Self) {
        Label
    }

    fn process(&mut self, ctx: &Context, s: &mut LabelProperties) {
    }

    fn render(&self, ctx: &Context, s: &LabelProperties, out: &mut Frame) {
        proof {
            assert(out@.take(out@.len() as int) =~= out@);
            assert(out@.skip(out@.len() as int) =~= Seq::<DrawCmd>::empty());
        }
    }

    fn ui(&mut self, ctx: &Context, ui: &mut Ui, s: &mut LabelProperties) {
        let text = s.label.clone();
        ui.label(s.location.0, s.location.1, text);
    }
}

} // verus!
