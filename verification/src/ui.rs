//! The immediate-mode UI pass's model.
//!
//! Each frame the host hands the tree a `Ui` carrying the user's
//! pending widget responses in declaration order. As the UI pass walks
//! the tree, every widget call appends its declaration to `widgets`
//! (for the host to lay out and draw) and the interactive ones consume
//! the next response, front to back. The pass is thereby a pure
//! function of the state and the handed-in responses.

use vstd::prelude::*;

verus! {

/// What the user did to the next interactive widget this frame.
#[derive(Debug)]
pub enum UiResponse {
    /// No interaction.
    Nothing,
    /// A button press.
    Clicked,
    /// A checkbox set to this value.
    SetBool(bool),
    /// A combo box set to this selection.
    SetChoice(Option<usize>),
    /// A text field's new contents.
    SetText(String),
}

/// One widget declaration, recorded in declaration order.
#[derive(Debug)]
pub enum UiWidget {
    Button { x: i64, y: i64, w: i64, h: i64, label: String, selected: bool },
    Checkbox { label: String, value: bool },
    ComboBox { label: String, variants: Vec<String>, chosen: Option<usize> },
    InputText { label: String, is_password: bool, text: String },
    Label { x: i64, y: i64, text: String },
    WindowBegin {
        id: u64,
        x: i64,
        y: i64,
        w: i64,
        h: i64,
        title: Option<String>,
        title_bar: bool,
        movable: bool,
        close_button: bool,
    },
    WindowEnd,
    GroupBegin { w: i64, h: i64 },
    GroupEnd,
}

/// One frame's UI exchange: responses in, widget declarations out.
#[derive(Debug)]
pub struct Ui {
    pub responses: Vec<UiResponse>,
    pub widgets: Vec<UiWidget>,
}

impl Ui {
    /// The responses not yet consumed, front first.
    pub open spec fn spec_responses(self) -> Seq<UiResponse> {
        self.responses@
    }

    /// The widgets declared so far, in declaration order.
    pub open spec fn spec_widgets(self) -> Seq<UiWidget> {
        self.widgets@
    }

    /// The response the next interactive widget will receive.
    pub open spec fn spec_next_response(self) -> UiResponse {
        if self.responses@.len() > 0 {
            self.responses@[0]
        } else {
            UiResponse::Nothing
        }
    }

    /// The pending responses after one has been consumed.
    pub open spec fn spec_rest(self) -> Seq<UiResponse> {
        if self.responses@.len() > 0 {
            self.responses@.remove(0)
        } else {
            self.responses@
        }
    }

    /// One consumed response, one more declared widget.
    pub open spec fn spec_after_interactive(self, new: Ui, w: UiWidget) -> bool {
        &&& new.spec_responses() == self.spec_rest()
        &&& new.spec_widgets() == self.spec_widgets().push(w)
    }

    /// Unchanged responses, one more declared widget.
    pub open spec fn spec_after_passive(self, new: Ui, w: UiWidget) -> bool {
        &&& new.spec_responses() == self.spec_responses()
        &&& new.spec_widgets() == self.spec_widgets().push(w)
    }

    /// A fresh exchange for one frame, from the host's responses.
    pub fn new(responses: Vec<UiResponse>) -> (r: Ui)
        ensures
            r.spec_responses() == responses@,
            r.spec_widgets() == Seq::<UiWidget>::empty(),
    {
        Ui { responses, widgets: Vec::new() }
    }

    /// The widgets declared so far, in declaration order.
    pub fn widgets(&self) -> (r: &Vec<UiWidget>)
        ensures
            r@ == self.spec_widgets(),
    {
        &self.widgets
    }

    /// Takes the next pending response, if any.
    fn consume(&mut self) -> (r: UiResponse)
        ensures
            r == old(self).spec_next_response(),
            final(self).spec_responses() == old(self).spec_rest(),
            final(self).spec_widgets() == old(self).spec_widgets(),
    {
        if self.responses.len() > 0 {
            self.responses.remove(0)
        } else {
            UiResponse::Nothing
        }
    }

    /// Declares a button; reports whether the user pressed it.
    pub fn button(
        &mut self,
        x: i64,
        y: i64,
        w: i64,
        h: i64,
        label: String,
        selected: bool,
    ) -> (clicked: bool)
        ensures
            old(self).spec_after_interactive(
                *final(self),
                UiWidget::Button { x, y, w, h, label, selected },
            ),
            clicked == (old(self).spec_next_response() is Clicked),
    {
        let resp = self.consume();
        self.widgets.push(UiWidget::Button { x, y, w, h, label, selected });
        match resp {
            UiResponse::Clicked => true,
            _ => false,
        }
    }

    /// Declares a checkbox over `value`; the user's response may
    /// replace the value.
    pub fn checkbox(&mut self, label: String, value: &mut bool)
        ensures
            old(self).spec_after_interactive(
                *final(self),
                UiWidget::Checkbox { label, value: *old(value) },
            ),
            *final(value) == (match old(self).spec_next_response() {
                UiResponse::SetBool(b) => b,
                _ => *old(value),
            }),
    {
        let resp = self.consume();
        self.widgets.push(UiWidget::Checkbox { label, value: *value });
        match resp {
            UiResponse::SetBool(b) => {
                *value = b;
            },
            _ => {},
        }
    }

    /// Declares a combo box over `chosen`; the user's response may
    /// replace the selection.
    pub fn combo_box(&mut self, label: String, variants: Vec<String>, chosen: &mut Option<usize>)
        ensures
            old(self).spec_after_interactive(
                *final(self),
                UiWidget::ComboBox { label, variants, chosen: *old(chosen) },
            ),
            *final(chosen) == (match old(self).spec_next_response() {
                UiResponse::SetChoice(c) => c,
                _ => *old(chosen),
            }),
    {
        let resp = self.consume();
        self.widgets.push(UiWidget::ComboBox { label, variants, chosen: *chosen });
        match resp {
            UiResponse::SetChoice(c) => {
                *chosen = c;
            },
            _ => {},
        }
    }

    /// Declares a text input showing `text`; returns the field's new
    /// contents for the caller to store.
    pub fn input_text(&mut self, label: String, is_password: bool, text: String) -> (r: String)
        ensures
            old(self).spec_after_interactive(
                *final(self),
                UiWidget::InputText { label, is_password, text },
            ),
            r == (match old(self).spec_next_response() {
                UiResponse::SetText(t) => t,
                _ => text,
            }),
    {
        let resp = self.consume();
        let shown = text.clone();
        self.widgets.push(UiWidget::InputText { label, is_password, text: shown });
        match resp {
            UiResponse::SetText(t) => t,
            _ => text,
        }
    }

    /// Declares a static label; consumes no response.
    pub fn label(&mut self, x: i64, y: i64, text: String)
        ensures
            old(self).spec_after_passive(*final(self), UiWidget::Label { x, y, text }),
    {
        self.widgets.push(UiWidget::Label { x, y, text });
    }

    /// Opens a window frame; consumes no response.
    pub fn window_begin(
        &mut self,
        id: u64,
        x: i64,
        y: i64,
        w: i64,
        h: i64,
        label: Option<String>,
        title_bar: bool,
        movable: bool,
        close_button: bool,
    )
        ensures
            old(self).spec_after_passive(
                *final(self),
                UiWidget::WindowBegin {
                    id,
                    x,
                    y,
                    w,
                    h,
                    title: label,
                    title_bar,
                    movable,
                    close_button,
                },
            ),
    {
        self.widgets.push(
            UiWidget::WindowBegin { id, x, y, w, h, title: label, title_bar, movable, close_button },
        );
    }

    /// Closes the innermost open window frame.
    pub fn window_end(&mut self)
        ensures
            old(self).spec_after_passive(*final(self), UiWidget::WindowEnd),
    {
        self.widgets.push(UiWidget::WindowEnd);
    }

    /// Opens a layout group; consumes no response.
    pub fn group_begin(&mut self, w: i64, h: i64)
        ensures
            old(self).spec_after_passive(*final(self), UiWidget::GroupBegin { w, h }),
    {
        self.widgets.push(UiWidget::GroupBegin { w, h });
    }

    /// Closes the innermost open layout group.
    pub fn group_end(&mut self)
        ensures
            old(self).spec_after_passive(*final(self), UiWidget::GroupEnd),
    {
        self.widgets.push(UiWidget::GroupEnd);
    }
}

} // verus!
