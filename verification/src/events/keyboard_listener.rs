//! An edge-level keyboard signal.

use vstd::prelude::*;

use crate::component::Component;
use crate::context::Context;
use crate::frame::{DrawCmd, Frame};
use crate::ui::Ui;

verus! {

/// Every `process` pass samples whether the key `check` names is
/// currently held and reports the boolean to `on_event` — an
/// edge-level signal, fired each frame, not only on changes.
pub struct KeyDown<CheckFor, OnEvent> {
    pub check: CheckFor,
    pub on_event: OnEvent,
}

impl<CheckFor, OnEvent> KeyDown<CheckFor, OnEvent> {
    /// Builds the listener from its key selector and handler.
    pub fn new<State>(check: CheckFor, on_event: OnEvent) -> (r: Self)
        where
            CheckFor: Fn(&State) -> u32,
            OnEvent: Fn(bool, &State) -> State,
        ensures
            r == (KeyDown { check, on_event }),
    {
        KeyDown { check, on_event }
    }
}

impl<State, CheckFor: Fn(&State) -> u32, OnEvent: Fn(bool, &State) -> State> Component<
    State,
> for KeyDown<CheckFor, OnEvent> {
    type Input = (CheckFor, OnEvent);

    open spec fn input_inv(input: Self::Input) -> bool {
        true
    }

    open spec fn made(input: Self::Input) -> Self {
        KeyDown { check: input.0, on_event: input.1 }
    }

    open spec fn inv(self) -> bool {
        true
    }

    open spec fn process_req(self, ctx: Context, s: State) -> bool {
        &&& call_requires(self.check, (&s,))
        &&& forall|key: u32|
            #[trigger] call_ensures(self.check, (&s,), key) ==> call_requires(
                self.on_event,
                (ctx.spec_keys_down().contains(key), &s),
            )
    }

    open spec fn process_rel(self, ctx: Context, s: State, new_self: Self, new_s: State) -> bool {
        &&& new_self == self
        &&& exists|key: u32|
            #[trigger] call_ensures(self.check, (&s,), key) && call_ensures(
                self.on_event,
                (ctx.spec_keys_down().contains(key), &s),
                new_s,
            )
    }

    open spec fn render_req(self, ctx: Context, s: State) -> bool {
        true
    }

    open spec fn render_rel(self, ctx: Context, s: State, emitted: Seq<DrawCmd>) -> bool {
        emitted == Seq::<DrawCmd>::empty()
    }

    open spec fn ui_req(self, ctx: Context, ui: Ui, s: State) -> bool {
        true
    }

    open spec fn ui_rel(self, ctx: Context, ui: Ui, s: State, new_self: Self, new_ui: Ui, new_s: State) -> bool {
        new_self == self && new_ui == ui && new_s == s
    }

    fn instantiate(input: Self::Input) -> (r: Self) {
        let (check, on_event) = input;
        KeyDown { check, on_event }
    }

    fn process(&mut self, ctx: &Context, s: &mut State) {
        let key = (self.check)(s);
        let down = ctx.is_key_down(key);
        let mapped = (self.on_event)(down, s);
        *s = mapped;
    }

    fn render(&self, ctx: &Context, s: &State, out: &mut Frame) {
        proof {
            assert(out@.take(out@.len() as int) =~= out@);
            assert(out@.skip(out@.len() as int) =~= Seq::<DrawCmd>::empty());
        }
    }

    fn ui(&mut self, ctx: &Context, ui: &mut Ui, s: &mut State) {
    }
}

} // verus!
