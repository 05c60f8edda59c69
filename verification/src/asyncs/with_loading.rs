//! A node that shows one child while loading and another when loaded.

use vstd::prelude::*;

use crate::asyncs::on_loaded::{present_value, value_absent, value_process_rel, value_ui_rel};
use crate::asyncs::state::{poll_step_rel, AsyncState};
use crate::component::Component;
use crate::context::Context;
use crate::frame::{DrawCmd, Frame};
use crate::ui::Ui;

verus! {

/// Polls the loading state once per `process` pass; then, when a
/// value is available (loaded, or the stale cache), runs
/// `loaded_child` against it, and otherwise runs `loading_child`
/// against the whole state — a placeholder scene while nothing can be
/// shown yet.
pub struct WithLoading<Poll, LoadedChild, LoadingChild> {
    pub poll: Poll,
    pub loaded_child: LoadedChild,
    pub loading_child: LoadingChild,
}

impl<Poll, LoadedChild, LoadingChild> WithLoading<Poll, LoadedChild, LoadingChild> {
    /// Builds the pair from the host's poll function and the two
    /// children.
    pub fn new<T, F>(poll: Poll, loaded_child: LoadedChild, loading_child: LoadingChild) -> (r:
        Self)
        where
            Poll: Fn(F) -> (F, Option<T>),
            LoadedChild: Component<T>,
            LoadingChild: Component<AsyncState<T, F>>,
        ensures
            r == (WithLoading { poll, loaded_child, loading_child }),
            loaded_child.inv() && loading_child.inv() ==> <Self as Component<
                AsyncState<T, F>,
            >>::inv(r),
    {
        WithLoading { poll, loaded_child, loading_child }
    }
}

impl<
    T,
    F,
    Poll: Fn(F) -> (F, Option<T>),
    LoadedChild: Component<T>,
    LoadingChild: Component<AsyncState<T, F>>,
> Component<AsyncState<T, F>> for WithLoading<Poll, LoadedChild, LoadingChild> {
    type Input = (Poll, LoadedChild, LoadingChild);

    open spec fn input_inv(input: Self::Input) -> bool {
        input.1.inv() && input.2.inv()
    }

    open spec fn made(input: Self::Input) -> Self {
        WithLoading { poll: input.0, loaded_child: input.1, loading_child: input.2 }
    }

    open spec fn inv(self) -> bool {
        self.loaded_child.inv() && self.loading_child.inv()
    }

    open spec fn process_req(self, ctx: Context, s: AsyncState<T, F>) -> bool {
        &&& forall|f: F| #[trigger] call_requires(self.poll, (f,))
        &&& forall|mid: AsyncState<T, F>| #[trigger] poll_step_rel(self.poll, s, mid) ==> if value_absent(
            mid,
        ) {
            self.loading_child.process_req(ctx, mid)
        } else {
            self.loaded_child.process_req(ctx, present_value(mid))
        }
    }

    open spec fn process_rel(
        self,
        ctx: Context,
        s: AsyncState<T, F>,
        new_self: Self,
        new_s: AsyncState<T, F>,
    ) -> bool {
        &&& new_self.poll == self.poll
        &&& exists|mid: AsyncState<T, F>|
            #[trigger] poll_step_rel(self.poll, s, mid) && if value_absent(mid) {
                &&& self.loading_child.process_rel(ctx, mid, new_self.loading_child, new_s)
                &&& new_self.loaded_child == self.loaded_child
            } else {
                &&& value_process_rel(self.loaded_child, ctx, mid, new_self.loaded_child, new_s)
                &&& new_self.loading_child == self.loading_child
            }
    }

    open spec fn render_req(self, ctx: Context, s: AsyncState<T, F>) -> bool {
        if value_absent(s) {
            self.loading_child.render_req(ctx, s)
        } else {
            self.loaded_child.render_req(ctx, present_value(s))
        }
    }

    open spec fn render_rel(self, ctx: Context, s: AsyncState<T, F>, emitted: Seq<DrawCmd>) -> bool {
        if value_absent(s) {
            self.loading_child.render_rel(ctx, s, emitted)
        } else {
            self.loaded_child.render_rel(ctx, present_value(s), emitted)
        }
    }

    open spec fn ui_req(self, ctx: Context, ui: Ui, s: AsyncState<T, F>) -> bool {
        if value_absent(s) {
            self.loading_child.ui_req(ctx, ui, s)
        } else {
            self.loaded_child.ui_req(ctx, ui, present_value(s))
        }
    }

    open spec fn ui_rel(
        self,
        ctx: Context,
        ui: Ui,
        s: AsyncState<T, F>,
        new_self: Self,
        new_ui: Ui,
        new_s: AsyncState<T, F>,
    ) -> bool {
        &&& new_self.poll == self.poll
        &&& if value_absent(s) {
            &&& self.loading_child.ui_rel(ctx, ui, s, new_self.loading_child, new_ui, new_s)
            &&& new_self.loaded_child == self.loaded_child
        } else {
            &&& value_ui_rel(self.loaded_child, ctx, ui, s, new_self.loaded_child, new_ui, new_s)
            &&& new_self.loading_child == self.loading_child
        }
    }

    fn instantiate(input: Self::Input) -> (r: Self) {
        let (poll, loaded_child, loading_child) = input;
        WithLoading { poll, loaded_child, loading_child }
    }

    fn process(&mut self, ctx: &Context, s: &mut AsyncState<T, F>) {
        s.process(&self.poll);
        let ghost mid = *s;
        let present = match &*s {
            AsyncState::Loaded(l) => l.value.is_some(),
            AsyncState::Loading(Some(l), _) => l.value.is_some(),
            _ => false,
        };
        if present {
            match &mut *s {
                AsyncState::Loaded(l) => match &mut l.value {
                    Some(v) => {
                        self.loaded_child.process(ctx, v);
                    },
                    None => {},
                },
                AsyncState::Loading(Some(l), _) => match &mut l.value {
                    Some(v) => {
                        self.loaded_child.process(ctx, v);
                    },
                    None => {},
                },
                _ => {},
            }
        } else {
            self.loading_child.process(ctx, s);
        }
        proof {
            assert(poll_step_rel(old(self).poll, *old(s), mid));
        }
    }

    fn render(&self, ctx: &Context, s: &AsyncState<T, F>, out: &mut Frame) {
        match &*s {
            AsyncState::Loaded(l) => match l.value.as_ref() {
                Some(v) => {
                    self.loaded_child.render(ctx, v, out);
                    return;
                },
                None => {},
            },
            AsyncState::Loading(Some(l), _) => match l.value.as_ref() {
                Some(v) => {
                    self.loaded_child.render(ctx, v, out);
                    return;
                },
                None => {},
            },
            _ => {},
        }
        self.loading_child.render(ctx, s, out);
    }

    fn ui(&mut self, ctx: &Context, ui: &mut Ui, s: &mut AsyncState<T, F>) {
        let present = match &*s {
            AsyncState::Loaded(l) => l.value.is_some(),
            AsyncState::Loading(Some(l), _) => l.value.is_some(),
            _ => false,
        };
        if present {
            match &mut *s {
                AsyncState::Loaded(l) => match &mut l.value {
                    Some(v) => {
                        self.loaded_child.ui(ctx, ui, v);
                    },
                    None => {},
                },
                AsyncState::Loading(Some(l), _) => match &mut l.value {
                    Some(v) => {
                        self.loaded_child.ui(ctx, ui, v);
                    },
                    None => {},
                },
                _ => {},
            }
        } else {
            self.loading_child.ui(ctx, ui, s);
        }
    }
}

} // verus!
