//! An exclusive branch between two children.

use vstd::prelude::*;

use crate::component::Component;
use crate::context::Context;
use crate::frame::{DrawCmd, Frame};
use crate::ui::Ui;

verus! {

/// Runs exactly one of two children per pass, re-evaluating the
/// predicate independently for each pass: `process` may change the
/// state so that `render` legitimately takes the other branch within
/// the same frame.
pub struct Choice<Choose, TrueChild, FalseChild> {
    pub chooser: Choose,
    pub true_child: TrueChild,
    pub false_child: FalseChild,
}

impl<
    State,
    Choose: Fn(&State) -> bool,
    TrueChild: Component<State>,
    FalseChild: Component<State>,
> Component<State> for Choice<Choose, TrueChild, FalseChild> {
    type Input = (Choose, TrueChild, FalseChild);

    open spec fn input_inv(input: Self::Input) -> bool {
        input.1.inv() && input.2.inv()
    }

    open spec fn made(input: Self::Input) -> Self {
        Choice { chooser: input.0, true_child: input.1, false_child: input.2 }
    }

    open spec fn inv(self) -> bool {
        self.true_child.inv() && self.false_child.inv()
    }

    open spec fn process_req(self, ctx: Context, s: State) -> bool {
        &&& call_requires(self.chooser, (&s,))
        &&& forall|b: bool|
            #[trigger] call_ensures(self.chooser, (&s,), b) ==> if b {
                self.true_child.process_req(ctx, s)
            } else {
                self.false_child.process_req(ctx, s)
            }
    }

    open spec fn process_rel(self, ctx: Context, s: State, new_self: Self, new_s: State) -> bool {
        &&& new_self.chooser == self.chooser
        &&& exists|b: bool|
            #[trigger] call_ensures(self.chooser, (&s,), b) && if b {
                &&& self.true_child.process_rel(ctx, s, new_self.true_child, new_s)
                &&& new_self.false_child == self.false_child
            } else {
                &&& self.false_child.process_rel(ctx, s, new_self.false_child, new_s)
                &&& new_self.true_child == self.true_child
            }
    }

    open spec fn render_req(self, ctx: Context, s: State) -> bool {
        &&& call_requires(self.chooser, (&s,))
        &&& forall|b: bool|
            #[trigger] call_ensures(self.chooser, (&s,), b) ==> if b {
                self.true_child.render_req(ctx, s)
            } else {
                self.false_child.render_req(ctx, s)
            }
    }

    open spec fn render_rel(self, ctx: Context, s: State, emitted: Seq<DrawCmd>) -> bool {
        exists|b: bool|
            #[trigger] call_ensures(self.chooser, (&s,), b) && if b {
                self.true_child.render_rel(ctx, s, emitted)
            } else {
                self.false_child.render_rel(ctx, s, emitted)
            }
    }

    open spec fn ui_req(self, ctx: Context, ui: Ui, s: State) -> bool {
        &&& call_requires(self.chooser, (&s,))
        &&& forall|b: bool|
            #[trigger] call_ensures(self.chooser, (&s,), b) ==> if b {
                self.true_child.ui_req(ctx, ui, s)
            } else {
                self.false_child.ui_req(ctx, ui, s)
            }
    }

    open spec fn ui_rel(self, ctx: Context, ui: Ui, s: State, new_self: Self, new_ui: Ui, new_s: State) -> bool {
        &&& new_self.chooser == self.chooser
        &&& exists|b: bool|
            #[trigger] call_ensures(self.chooser, (&s,), b) && if b {
                &&& self.true_child.ui_rel(ctx, ui, s, new_self.true_child, new_ui, new_s)
                &&& new_self.false_child == self.false_child
            } else {
                &&& self.false_child.ui_rel(ctx, ui, s, new_self.false_child, new_ui, new_s)
                &&& new_self.true_child == self.true_child
            }
    }

    fn instantiate(input: Self::Input) -> (r: Self) {
        let (chooser, true_child, false_child) = input;
        Choice { chooser, true_child, false_child }
    }

    fn process(&mut self, ctx: &Context, s: &mut State) {
        let b = (self.chooser)(s);
        if b {
            self.true_child.process(ctx, s);
        } else {
            self.false_child.process(ctx, s);
        }
    }

    fn render(&self, ctx: &Context, s: &State, out: &mut Frame) {
        let b = (self.chooser)(s);
        if b {
            self.true_child.render(ctx, s, out);
        } else {
            self.false_child.render(ctx, s, out);
        }
    }

    fn ui(&mut self, ctx: &Context, ui: &mut Ui, s: &mut State) {
        let b = (self.chooser)(s);
        if b {
            self.true_child.ui(ctx, ui, s);
        } else {
            self.false_child.ui(ctx, ui, s);
        }
    }
}

impl<Choose, TrueChild, FalseChild> Choice<Choose, TrueChild, FalseChild> {
    /// Builds the branch from a predicate and its two children.
    pub fn new<State>(choice: Choose, true_child: TrueChild, false_child: FalseChild) -> (r: Self)
        where
            Choose: Fn(&State) -> bool,
            TrueChild: Component<State>,
            FalseChild: Component<State>,
        ensures
            r == (Choice { chooser: choice, true_child, false_child }),
            true_child.inv() && false_child.inv() ==> r.inv(),
    {
        Choice { chooser: choice, true_child, false_child }
    }
}

/// Packaging of [`Choice`]'s `process` precondition: the predicate is
/// callable and whichever branch it may pick is ready to run.
pub proof fn lemma_choice_process_req_intro<
    State,
    Choose: Fn(&State) -> bool,
    TrueChild: Component<State>,
    FalseChild: Component<State>,
>(c: Choice<Choose, TrueChild, FalseChild>, ctx: Context, s: State)
    requires
        call_requires(c.chooser, (&s,)),
        forall|b: bool|
            #[trigger] call_ensures(c.chooser, (&s,), b) ==> if b {
                c.true_child.process_req(ctx, s)
            } else {
                c.false_child.process_req(ctx, s)
            },
    ensures
        c.process_req(ctx, s),
{
}

/// When the predicate decides for the true branch, one `process` pass
/// runs exactly the true child: the transition is the true child's own
/// and the false child is left untouched.
pub proof fn lemma_choice_process_takes_true<
    State,
    Choose: Fn(&State) -> bool,
    TrueChild: Component<State>,
    FalseChild: Component<State>,
>(
    c: Choice<Choose, TrueChild, FalseChild>,
    ctx: Context,
    s: State,
    new_c: Choice<Choose, TrueChild, FalseChild>,
    new_s: State,
)
    requires
        c.process_rel(ctx, s, new_c, new_s),
        forall|b: bool| #[trigger] call_ensures(c.chooser, (&s,), b) ==> b == true,
    ensures
        c.true_child.process_rel(ctx, s, new_c.true_child, new_s),
        new_c.false_child == c.false_child,
{
}

/// When the predicate decides for the false branch, one `process` pass
/// runs exactly the false child and leaves the true child untouched.
pub proof fn lemma_choice_process_takes_false<
    State,
    Choose: Fn(&State) -> bool,
    TrueChild: Component<State>,
    FalseChild: Component<State>,
>(
    c: Choice<Choose, TrueChild, FalseChild>,
    ctx: Context,
    s: State,
    new_c: Choice<Choose, TrueChild, FalseChild>,
    new_s: State,
)
    requires
        c.process_rel(ctx, s, new_c, new_s),
        forall|b: bool| #[trigger] call_ensures(c.chooser, (&s,), b) ==> b == false,
    ensures
        c.false_child.process_rel(ctx, s, new_c.false_child, new_s),
        new_c.true_child == c.true_child,
{
}

} // verus!
