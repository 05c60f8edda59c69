//! The check-then-map event primitive.

use vstd::prelude::*;

use crate::component::Component;
use crate::context::Context;
use crate::frame::{DrawCmd, Frame};
use crate::ui::Ui;

verus! {

/// Each `process` pass derives an event value from the state with
/// `check_event` and folds it back with `map`; the other passes do
/// nothing.
pub struct Event<CheckEvent, MapIntoState> {
    pub check_event: CheckEvent,
    pub map: MapIntoState,
}

impl<CheckEvent, MapIntoState> Event<CheckEvent, MapIntoState> {
    /// Builds the primitive from its check and map functions.
    pub fn new<StateIn, CreatedEvent>(check_event: CheckEvent, mapper: MapIntoState) -> (r: Self)
        where
            CheckEvent: Fn(&StateIn) -> CreatedEvent,
            MapIntoState: Fn(CreatedEvent, &StateIn) -> StateIn,
        ensures
            r == (Event { check_event, map: mapper }),
    {
        Event { check_event, map: mapper }
    }
}

impl<
    StateIn,
    CreatedEvent,
    CheckEvent: Fn(&StateIn) -> CreatedEvent,
    MapIntoState: Fn(CreatedEvent, &StateIn) -> StateIn,
> Component<StateIn> for Event<CheckEvent, MapIntoState> {
    type Input = (CheckEvent, MapIntoState);

    open spec fn input_inv(input: Self::Input) -> bool {
        true
    }

    open spec fn made(input: Self::Input) -> Self {
        Event { check_event: input.0, map: input.1 }
    }

    open spec fn inv(self) -> bool {
        true
    }

    open spec fn process_req(self, ctx: Context, s: StateIn) -> bool {
        &&& call_requires(self.check_event, (&s,))
        &&& forall|ev: CreatedEvent|
            #[trigger] call_ensures(self.check_event, (&s,), ev) ==> call_requires(
                self.map,
                (ev, &s),
            )
    }

    open spec fn process_rel(self, ctx: Context, s: StateIn, new_self: Self, new_s: StateIn) -> bool {
        &&& new_self == self
        &&& exists|ev: CreatedEvent|
            #[trigger] call_ensures(self.check_event, (&s,), ev) && call_ensures(
                self.map,
                (ev, &s),
                new_s,
            )
    }

    open spec fn render_req(self, ctx: Context, s: StateIn) -> bool {
        true
    }

    open spec fn render_rel(self, ctx: Context, s: StateIn, emitted: Seq<DrawCmd>) -> bool {
        emitted == Seq::<DrawCmd>::empty()
    }

    open spec fn ui_req(self, ctx: Context, ui: Ui, s: StateIn) -> bool {
        true
    }

    open spec fn ui_rel(self, ctx: Context, ui: Ui, s: StateIn, new_self: Self, new_ui: Ui, new_s: StateIn) -> bool {
        new_self == self && new_ui == ui && new_s == s
    }

    fn instantiate(input: Self::Input) -> (r: Self) {
        let (check_event, map) = input;
        Event { check_event, map }
    }

    fn process(&mut self, ctx: &Context, s: &mut StateIn) {
        let x = (self.check_event)(s);
        let mapped = (self.map)(x, s);
        *s = mapped;
    }

    fn render(&self, ctx: &Context, s: &StateIn, out: &mut Frame) {
        proof {
            assert(out@.take(out@.len() as int) =~= out@);
            assert(out@.skip(out@.len() as int) =~= Seq::<DrawCmd>::empty());
        }
    }

    fn ui(&mut self, ctx: &Context, ui: &mut Ui, s: &mut StateIn) {
    }
}

} // verus!
