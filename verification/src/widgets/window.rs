//! The window widget node.

use vstd::prelude::*;

use crate::component::Component;
use crate::context::Context;
use crate::frame::{DrawCmd, Frame};
use crate::ui::{Ui, UiWidget};

verus! {

/// A window's placement, chrome flags, optional title, and the data
/// its child runs on.
#[derive(Debug)]
pub struct WindowProperties<T> {
    pub location: (i64, i64),
    pub size: (i64, i64),
    pub label: Option<String>,
    pub title_bar: bool,
    pub extra_data: T,
    pub moveable: bool,
    pub close_button: bool,
}

/// Runs its child's UI pass inside a window frame identified by a
/// stable id; the other passes do nothing.
pub struct Window<Child> {
    pub child: Child,
    pub id: u64,
}

impl<Child> Window<Child> {
    /// Builds the window around `child`, under the host id `id`.
    pub fn new<T>(id: u64, child: Child) -> (r: Self)
        where
            Child: Component<T>,
        ensures
            r == (Window { child, id }),
            child.inv() ==> <Self as Component<WindowProperties<T>>>::inv(r),
    {
        Window { child, id }
    }
}

/// The window frame `s` declares under the id `id`.
pub open spec fn window_frame_of<T>(id: u64, s: WindowProperties<T>) -> UiWidget {
    UiWidget::WindowBegin {
        id,
        x: s.location.0,
        y: s.location.1,
        w: s.size.0,
        h: s.size.1,
        title: s.label,
        title_bar: s.title_bar,
        movable: s.moveable,
        close_button: s.close_button,
    }
}

impl<T, Child: Component<T>> Component<WindowProperties<T>> for Window<Child> {
    type Input = (u64, Child);

    open spec fn input_inv(input: Self::Input) -> bool {
        input.1.inv()
    }

    open spec fn made(input: Self::Input) -> Self {
        Window { child: input.1, id: input.0 }
    }

    open spec fn inv(self) -> bool {
        self.child.inv()
    }

    open spec fn process_req(self, ctx: Context, s: WindowProperties<T>) -> bool {
        true
    }

    open spec fn process_rel(
        self,
        ctx: Context,
        s: WindowProperties<T>,
        new_self: Self,
        new_s: WindowProperties<T>,
    ) -> bool {
        new_s == s
    }

    open spec fn render_req(self, ctx: Context, s: WindowProperties<T>) -> bool {
        true
    }

    open spec fn render_rel(self, ctx: Context, s: WindowProperties<T>, emitted: Seq<DrawCmd>) -> bool {
        emitted == Seq::<DrawCmd>::empty()
    }

    open spec fn ui_req(self, ctx: Context, ui: Ui, s: WindowProperties<T>) -> bool {
        forall|u: Ui|
            u.spec_responses() == ui.spec_responses() && u.spec_widgets() == ui.spec_widgets().push(
                window_frame_of(self.id, s),
            ) ==> self.child.ui_req(ctx, u, s.extra_data)
    }

    open spec fn ui_rel(
        self,
        ctx: Context,
        ui: Ui,
        s: WindowProperties<T>,
        new_self: Self,
        new_ui: Ui,
        new_s: WindowProperties<T>,
    ) -> bool {
        &&& new_self.id == self.id
        &&& new_s.location == s.location
        &&& new_s.size == s.size
        &&& new_s.label == s.label
        &&& new_s.title_bar == s.title_bar
        &&& new_s.moveable == s.moveable
        &&& new_s.close_button == s.close_button
        &&& exists|u1: Ui, u2: Ui|
            #![trigger self.child.ui_rel(ctx, u1, s.extra_data, new_self.child, u2, new_s.extra_data)]
            {
                &&& ui.spec_after_passive(u1, window_frame_of(self.id, s))
                &&& self.child.ui_rel(ctx, u1, s.extra_data, new_self.child, u2, new_s.extra_data)
                &&& u2.spec_after_passive(new_ui, UiWidget::WindowEnd)
            }
    }

    fn instantiate(input: Self::Input) -> (r: Self) {
        let (id, child) = input;
        Window { child, id }
    }

    fn process(&mut self, ctx: &Context, s: &mut WindowProperties<T>) {
    }

    fn render(&self, ctx: &Context, s: &WindowProperties<T>, out: &mut Frame) {
        proof {
            assert(out@.take(out@.len() as int) =~= out@);
            assert(out@.skip(out@.len() as int) =~= Seq::<DrawCmd>::empty());
        }
    }

    fn ui(&mut self, ctx: &Context, ui: &mut Ui, s: &mut WindowProperties<T>) {
        let title = s.label.clone();
        proof {
            assert(title == s.label);
        }
        ui.window_begin(
            self.id,
            s.location.0,
            s.location.1,
            s.size.0,
            s.size.1,
            title,
            s.title_bar,
            s.moveable,
            s.close_button,
        );
        let ghost u1 = *ui;
        self.child.ui(ctx, ui, &mut s.extra_data);
        let ghost u2 = *ui;
        ui.window_end();
        proof {
            assert(old(self).child.ui_rel(*ctx, u1, old(s).extra_data, self.child, u2, s.extra_data));
        }
    }
}

} // verus!
