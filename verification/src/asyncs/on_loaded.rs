//! A node that runs its child on the loaded value.

use vstd::prelude::*;

use crate::asyncs::state::{poll_step_rel, AsyncState, Lend};
use crate::component::Component;
use crate::context::Context;
use crate::frame::{DrawCmd, Frame};
use crate::ui::Ui;

verus! {

/// Where `process` leaves the child untouched and the state as it is:
/// no value is available, or it is currently lent out.
pub open spec fn value_absent<T, F>(s: AsyncState<T, F>) -> bool {
    match s {
        AsyncState::Loaded(l) => l.value is None,
        AsyncState::Loading(c, _) => c is None || c.unwrap().value is None,
        AsyncState::Unloaded => true,
    }
}

/// The available value: the loaded one, or the stale cache while
/// loading.
pub open spec fn present_value<T, F>(s: AsyncState<T, F>) -> T
    recommends
        !value_absent(s),
{
    match s {
        AsyncState::Loaded(l) => l.value.unwrap(),
        AsyncState::Loading(c, _) => c.unwrap().value.unwrap(),
        AsyncState::Unloaded => arbitrary(),
    }
}

/// The state with its available value replaced by `v2`: the tag,
/// cache shape and pending computation all stay.
pub open spec fn with_present_value<T, F>(s: AsyncState<T, F>, v2: T) -> AsyncState<T, F>
    recommends
        !value_absent(s),
{
    match s {
        AsyncState::Loaded(_) => AsyncState::Loaded(Lend { value: Some(v2) }),
        AsyncState::Loading(_, fut) => AsyncState::Loading(Some(Lend { value: Some(v2) }), fut),
        AsyncState::Unloaded => s,
    }
}

/// How one value pass may change the state: a present value is run
/// through the child's transition in place; an absent one leaves
/// everything untouched.
pub open spec fn value_process_rel<T, F, Child: Component<T>>(
    child: Child,
    ctx: Context,
    s: AsyncState<T, F>,
    new_child: Child,
    new_s: AsyncState<T, F>,
) -> bool {
    if value_absent(s) {
        new_child == child && new_s == s
    } else {
        exists|v2: T|
            #[trigger] child.process_rel(ctx, present_value(s), new_child, v2) && new_s
                == with_present_value(s, v2)
    }
}

/// The same for the `ui` pass, threading the widget exchange.
pub open spec fn value_ui_rel<T, F, Child: Component<T>>(
    child: Child,
    ctx: Context,
    ui: Ui,
    s: AsyncState<T, F>,
    new_child: Child,
    new_ui: Ui,
    new_s: AsyncState<T, F>,
) -> bool {
    if value_absent(s) {
        new_child == child && new_ui == ui && new_s == s
    } else {
        exists|v2: T|
            #[trigger] child.ui_rel(ctx, ui, present_value(s), new_child, new_ui, v2) && new_s
                == with_present_value(s, v2)
    }
}

/// Polls the loading state once per `process` pass, then runs its
/// child against the available value — the loaded one, or the stale
/// cache while a refresh is in flight. With no value available (or
/// the value lent out elsewhere) the child is skipped for the frame.
pub struct OnLoaded<Poll, Child> {
    pub poll: Poll,
    pub child: Child,
}

impl<
    T,
    F,
    Poll: Fn(F) -> (F, Option<T>),
    Child: Component<T>,
> Component<AsyncState<T, F>> for OnLoaded<Poll, Child> {
    type Input = (Poll, Child);

    open spec fn input_inv(input: Self::Input) -> bool {
        input.1.inv()
    }

    open spec fn made(input: Self::Input) -> Self {
        OnLoaded { poll: input.0, child: input.1 }
    }

    open spec fn inv(self) -> bool {
        self.child.inv()
    }

    open spec fn process_req(self, ctx: Context, s: AsyncState<T, F>) -> bool {
        &&& forall|f: F| #[trigger] call_requires(self.poll, (f,))
        &&& forall|mid: AsyncState<T, F>|
            #[trigger] poll_step_rel(self.poll, s, mid) && !value_absent(mid)
                ==> self.child.process_req(ctx, present_value(mid))
    }

    open spec fn process_rel(
        self,
        ctx: Context,
        s: AsyncState<T, F>,
        new_self: Self,
        new_s: AsyncState<T, F>,
    ) -> bool {
        &&& new_self.poll == self.poll
        &&& exists|mid: AsyncState<T, F>|
            #[trigger] poll_step_rel(self.poll, s, mid) && value_process_rel(
                self.child,
                ctx,
                mid,
                new_self.child,
                new_s,
            )
    }

    open spec fn render_req(self, ctx: Context, s: AsyncState<T, F>) -> bool {
        !value_absent(s) ==> self.child.render_req(ctx, present_value(s))
    }

    open spec fn render_rel(self, ctx: Context, s: AsyncState<T, F>, emitted: Seq<DrawCmd>) -> bool {
        if value_absent(s) {
            emitted == Seq::<DrawCmd>::empty()
        } else {
            self.child.render_rel(ctx, present_value(s), emitted)
        }
    }

    open spec fn ui_req(self, ctx: Context, ui: Ui, s: AsyncState<T, F>) -> bool {
        !value_absent(s) ==> self.child.ui_req(ctx, ui, present_value(s))
    }

    open spec fn ui_rel(
        self,
        ctx: Context,
        ui: Ui,
        s: AsyncState<T, F>,
        new_self: Self,
        new_ui: Ui,
        new_s: AsyncState<T, F>,
    ) -> bool {
        &&& new_self.poll == self.poll
        &&& value_ui_rel(self.child, ctx, ui, s, new_self.child, new_ui, new_s)
    }

    fn instantiate(input: Self::Input) -> (r: Self) {
        let (poll, child) = input;
        OnLoaded { poll, child }
    }

    fn process(&mut self, ctx: &Context, s: &mut AsyncState<T, F>) {
        s.process(&self.poll);
        let ghost mid = *s;
        match s {
            AsyncState::Loaded(l) => match &mut l.value {
                Some(v) => {
                    self.child.process(ctx, v);
                },
                None => {},
            },
            AsyncState::Loading(Some(l), _) => match &mut l.value {
                Some(v) => {
                    self.child.process(ctx, v);
                },
                None => {},
            },
            _ => {},
        }
        proof {
            assert(poll_step_rel(old(self).poll, *old(s), mid));
        }
    }

    fn render(&self, ctx: &Context, s: &AsyncState<T, F>, out: &mut Frame) {
        match s {
            AsyncState::Loaded(l) => match l.value.as_ref() {
                Some(v) => {
                    self.child.render(ctx, v, out);
                    return;
                },
                None => {},
            },
            AsyncState::Loading(Some(l), _) => match l.value.as_ref() {
                Some(v) => {
                    self.child.render(ctx, v, out);
                    return;
                },
                None => {},
            },
            _ => {},
        }
        proof {
            assert(out@.take(out@.len() as int) =~= out@);
            assert(out@.skip(out@.len() as int) =~= Seq::<DrawCmd>::empty());
        }
    }

    fn ui(&mut self, ctx: &Context, ui: &mut Ui, s: &mut AsyncState<T, F>) {
        match s {
            AsyncState::Loaded(l) => match &mut l.value {
                Some(v) => {
                    self.child.ui(ctx, ui, v);
                },
                None => {},
            },
            AsyncState::Loading(Some(l), _) => match &mut l.value {
                Some(v) => {
                    self.child.ui(ctx, ui, v);
                },
                None => {},
            },
            _ => {},
        }
    }
}

} // verus!
