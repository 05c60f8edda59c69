//! The combo-box widget node.

use vstd::prelude::*;

use crate::component::Component;
use crate::context::Context;
use crate::frame::{DrawCmd, Frame};
use crate::ui::{Ui, UiResponse, UiWidget};

verus! {

/// The choices, their label, and the current selection.
#[derive(Debug)]
pub struct ComboBoxProperties {
    pub label: String,
    pub variants: Vec<String>,
    pub chosen: Option<usize>,
}

/// Declares a combo box over the state's selection each UI pass; the
/// user's response replaces the selection.
pub struct ComboBox;

impl Component<ComboBoxProperties> for ComboBox {
    type Input = ();

    open spec fn input_inv(input: Self::Input) -> bool {
        true
    }

    open spec fn made(input: Self::Input) -> Self {
        ComboBox
    }

    open spec fn inv(self) -> bool {
        true
    }

    open spec fn process_req(self, ctx: Context, s: ComboBoxProperties) -> bool {
        true
    }

    open spec fn process_rel(
        self,
        ctx: Context,
        s: ComboBoxProperties,
        new_self: Self,
        new_s: ComboBoxProperties,
    ) -> bool {
        new_s == s
    }

    open spec fn render_req(self, ctx: Context, s: ComboBoxProperties) -> bool {
        true
    }

    open spec fn render_rel(self, ctx: Context, s: ComboBoxProperties, emitted: Seq<DrawCmd>) -> bool {
        emitted == Seq::<DrawCmd>::empty()
    }

    open spec fn ui_req(self, ctx: Context, ui: Ui, s: ComboBoxProperties) -> bool {
        true
    }

    open spec fn ui_rel(
        self,
        ctx: Context,
        ui: Ui,
        s: ComboBoxProperties,
        new_self: Self,
        new_ui: Ui,
        new_s: ComboBoxProperties,
    ) -> bool {
        &&& new_ui.spec_responses() == ui.spec_rest()
        &&& new_ui.spec_widgets().len() == ui.spec_widgets().len() + 1
        &&& new_ui.spec_widgets().take(ui.spec_widgets().len() as int) == ui.spec_widgets()
        &&& (match new_ui.spec_widgets().last() {
            UiWidget::ComboBox { label, variants, chosen } => {
                &&& label == s.label
                &&& variants.deep_view() == s.variants.deep_view()
                &&& chosen == s.chosen
            },
            _ => false,
        })
        &&& new_s.label == s.label
        &&& new_s.variants == s.variants
        &&& new_s.chosen == (match ui.spec_next_response() {
            UiResponse::SetChoice(c) => c,
            _ => s.chosen,
        })
    }

    fn instantiate(input: Self::Input) -> (r: Self) {
        ComboBox
    }

    fn process(&mut self, ctx: &Context, s: &mut ComboBoxProperties) {
    }

    fn render(&self, ctx: &Context, s: &ComboBoxProperties, out: &mut Frame) {
        proof {
            assert(out@.take(out@.len() as int) =~= out@);
            assert(out@.skip(out@.len() as int) =~= Seq::<DrawCmd>::empty());
        }
    }

    fn ui(&mut self, ctx: &Context, ui: &mut Ui, s: &mut ComboBoxProperties) {
        let label = s.label.clone();
        let variants = s.variants.clone();
        proof {
            assert(variants.deep_view() =~= s.variants.deep_view());
        }
        ui.combo_box(label, variants, &mut s.chosen);
        proof {
            assert(ui.spec_widgets().take(old(ui).spec_widgets().len() as int)
                =~= old(ui).spec_widgets());
        }
    }
}

} // verus!
