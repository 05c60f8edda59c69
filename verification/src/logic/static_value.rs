//! A frozen snapshot rendered every frame.

use vstd::prelude::*;

use crate::component::Component;
use crate::context::Context;
use crate::frame::{DrawCmd, Frame};
use crate::ui::Ui;

verus! {

/// Holds a private value the ambient state never touches. The ambient
/// `process` and `ui` passes are no-ops; `render` draws the child from
/// the frozen value every frame.
pub struct StaticValue<T, Child> {
    pub static_value: T,
    pub child: Child,
}

impl<T, Child> StaticValue<T, Child> {
    /// Builds the snapshot node from the frozen value and its child.
    pub fn new<State>(static_value: T, child: Child) -> (r: Self)
        where
            Child: Component<T>,
            Self: Component<State>,
        ensures
            r == (StaticValue { static_value, child }),
            child.inv() ==> <Self as Component<State>>::inv(r),
    {
        StaticValue { static_value, child }
    }
}

impl<State, T, Child: Component<T>> Component<State> for StaticValue<T, Child> {
    type Input = (T, Child);

    open spec fn input_inv(input: Self::Input) -> bool {
        input.1.inv()
    }

    open spec fn made(input: Self::Input) -> Self {
        StaticValue { static_value: input.0, child: input.1 }
    }

    open spec fn inv(self) -> bool {
        self.child.inv()
    }

    open spec fn process_req(self, ctx: Context, s: State) -> bool {
        true
    }

    open spec fn process_rel(self, ctx: Context, s: State, new_self: Self, new_s: State) -> bool {
        new_self == self && new_s == s
    }

    open spec fn render_req(self, ctx: Context, s: State) -> bool {
        self.child.render_req(ctx, self.static_value)
    }

    open spec fn render_rel(self, ctx: Context, s: State, emitted: Seq<DrawCmd>) -> bool {
        self.child.render_rel(ctx, self.static_value, emitted)
    }

    open spec fn ui_req(self, ctx: Context, ui: Ui, s: State) -> bool {
        true
    }

    open spec fn ui_rel(self, ctx: Context, ui: Ui, s: State, new_self: Self, new_ui: Ui, new_s: State) -> bool {
        new_self == self && new_ui == ui && new_s == s
    }

    fn instantiate(input: Self::Input) -> (r: Self) {
        let (static_value, child) = input;
        StaticValue { static_value, child }
    }

    fn process(&mut self, ctx: &Context, s: &mut State) {
    }

    fn render(&self, ctx: &Context, s: &State, out: &mut Frame) {
        self.child.render(ctx, &self.static_value, out);
    }

    fn ui(&mut self, ctx: &Context, ui: &mut Ui, s: &mut State) {
    }
}

} // verus!
