//! The layout-group widget node.

use vstd::prelude::*;

use crate::component::Component;
use crate::context::Context;
use crate::frame::{DrawCmd, Frame};
use crate::ui::{Ui, UiWidget};

verus! {

/// A group's size and the data its child runs on.
#[derive(Debug)]
pub struct GroupProperties<T> {
    pub size: (i64, i64),
    pub extra_data: T,
}

/// Runs its child against the group's inner data; the UI pass wraps
/// the child's widgets in a layout group of the given size.
pub struct Group<Child> {
    pub child: Child,
}

impl<T, Child: Component<T>> Component<GroupProperties<T>> for Group<Child> {
    type Input = Child;

    open spec fn input_inv(input: Self::Input) -> bool {
        input.inv()
    }

    open spec fn made(input: Self::Input) -> Self {
        Group { child: input }
    }

    open spec fn inv(self) -> bool {
        self.child.inv()
    }

    open spec fn process_req(self, ctx: Context, s: GroupProperties<T>) -> bool {
        self.child.process_req(ctx, s.extra_data)
    }

    open spec fn process_rel(
        self,
        ctx: Context,
        s: GroupProperties<T>,
        new_self: Self,
        new_s: GroupProperties<T>,
    ) -> bool {
        &&& new_s.size == s.size
        &&& self.child.process_rel(ctx, s.extra_data, new_self.child, new_s.extra_data)
    }

    open spec fn render_req(self, ctx: Context, s: GroupProperties<T>) -> bool {
        self.child.render_req(ctx, s.extra_data)
    }

    open spec fn render_rel(self, ctx: Context, s: GroupProperties<T>, emitted: Seq<DrawCmd>) -> bool {
        self.child.render_rel(ctx, s.extra_data, emitted)
    }

    open spec fn ui_req(self, ctx: Context, ui: Ui, s: GroupProperties<T>) -> bool {
        forall|u: Ui|
            u.spec_responses() == ui.spec_responses() && u.spec_widgets() == ui.spec_widgets().push(
                UiWidget::GroupBegin { w: s.size.0, h: s.size.1 },
            ) ==> self.child.ui_req(ctx, u, s.extra_data)
    }

    open spec fn ui_rel(
        self,
        ctx: Context,
        ui: Ui,
        s: GroupProperties<T>,
        new_self: Self,
        new_ui: Ui,
        new_s: GroupProperties<T>,
    ) -> bool {
        &&& new_s.size == s.size
        &&& exists|u1: Ui, u2: Ui|
            #![trigger self.child.ui_rel(ctx, u1, s.extra_data, new_self.child, u2, new_s.extra_data)]
            {
                &&& ui.spec_after_passive(u1, UiWidget::GroupBegin { w: s.size.0, h: s.size.1 })
                &&& self.child.ui_rel(ctx, u1, s.extra_data, new_self.child, u2, new_s.extra_data)
                &&& u2.spec_after_passive(new_ui, UiWidget::GroupEnd)
            }
    }

    fn instantiate(input: Self::Input) -> (r: Self) {
        Group { child: input }
    }

    fn process(&mut self, ctx: &Context, s: &mut GroupProperties<T>) {
        self.child.process(ctx, &mut s.extra_data);
    }

    fn render(&self, ctx: &Context, s: &GroupProperties<T>, out: &mut Frame) {
        self.child.render(ctx, &s.extra_data, out);
    }

    fn ui(&mut self, ctx: &Context, ui: &mut Ui, s: &mut GroupProperties<T>) {
        ui.group_begin(s.size.0, s.size.1);
        let ghost u1 = *ui;
        self.child.ui(ctx, ui, &mut s.extra_data);
        let ghost u2 = *ui;
        ui.group_end();
        proof {
            assert(old(self).child.ui_rel(*ctx, u1, old(s).extra_data, self.child, u2, s.extra_data));
        }
    }
}

} // verus!
