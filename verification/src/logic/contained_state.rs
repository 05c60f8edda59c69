//! A sub-scene alive on its own private state.

use vstd::prelude::*;

use crate::component::Component;
use crate::context::Context;
use crate::frame::{DrawCmd, Frame};
use crate::ui::Ui;

verus! {

/// Holds a private value and always runs its child's passes against
/// it, whatever the ambient state does: the ambient state itself is
/// never touched. Keeps a detached sub-scene alive; use sparingly, as
/// it bypasses the tree's single shared state.
pub struct ContainedState<T, Child> {
    pub static_value: T,
    pub child: Child,
}

impl<State, T, Child: Component<T>> Component<State> for ContainedState<T, Child> {
    type Input = (T, Child);

    open spec fn input_inv(input: Self::Input) -> bool {
        input.1.inv()
    }

    open spec fn made(input: Self::Input) -> Self {
        ContainedState { static_value: input.0, child: input.1 }
    }

    open spec fn inv(self) -> bool {
        self.child.inv()
    }

    open spec fn process_req(self, ctx: Context, s: State) -> bool {
        self.child.process_req(ctx, self.static_value)
    }

    open spec fn process_rel(self, ctx: Context, s: State, new_self: Self, new_s: State) -> bool {
        &&& new_s == s
        &&& self.child.process_rel(ctx, self.static_value, new_self.child, new_self.static_value)
    }

    open spec fn render_req(self, ctx: Context, s: State) -> bool {
        self.child.render_req(ctx, self.static_value)
    }

    open spec fn render_rel(self, ctx: Context, s: State, emitted: Seq<DrawCmd>) -> bool {
        self.child.render_rel(ctx, self.static_value, emitted)
    }

    open spec fn ui_req(self, ctx: Context, ui: Ui, s: State) -> bool {
        self.child.ui_req(ctx, ui, self.static_value)
    }

    open spec fn ui_rel(self, ctx: Context, ui: Ui, s: State, new_self: Self, new_ui: Ui, new_s: State) -> bool {
        &&& new_s == s
        &&& self.child.ui_rel(
            ctx,
            ui,
            self.static_value,
            new_self.child,
            new_ui,
            new_self.static_value,
        )
    }

    fn instantiate(input: Self::Input) -> (r: Self) {
        let (static_value, child) = input;
        ContainedState { static_value, child }
    }

    fn process(&mut self, ctx: &Context, s: &mut State) {
        let this = self;
        this.child.process(ctx, &mut this.static_value);
    }

    fn render(&self, ctx: &Context, s: &State, out: &mut Frame) {
        self.child.render(ctx, &self.static_value, out);
    }

    fn ui(&mut self, ctx: &Context, ui: &mut Ui, s: &mut State) {
        let this = self;
        this.child.ui(ctx, ui, &mut this.static_value);
    }
}

} // verus!
