//! The driving loop's owner of the root state.

use vstd::prelude::*;

use crate::component::Component;
use crate::context::Context;
use crate::frame::Frame;
use crate::ui::Ui;

verus! {

/// Owns the root state and runs the per-frame pass sequence against
/// the whole tree. One frame is `process`, then `render`, then `ui`,
/// in that fixed order: a frame's visible output reflects the state
/// this frame's `process` pass produced. The host calls [`Self::frame`]
/// once per scheduled frame and replays the returned commands.
pub struct StateFull<T> {
    pub state: T,
}

impl<T> StateFull<T> {
    /// Creates a new instance owning the given root state.
    pub fn new_from(state: T) -> (r: Self)
        ensures
            r == (StateFull { state }),
    {
        StateFull { state }
    }

    /// Runs one frame against `comp`: the process pass, then the
    /// render pass into `out`, then the UI pass against `ui`.
    pub fn frame<C: Component<T>>(&mut self, comp: &mut C, ctx: &Context, ui: &mut Ui, out: &mut Frame)
        requires
            old(comp).inv(),
            old(comp).process_req(*ctx, old(self).state),
            forall|c1: C, m: T|
                #[trigger] old(comp).process_rel(*ctx, old(self).state, c1, m) ==> {
                    &&& c1.render_req(*ctx, m)
                    &&& c1.ui_req(*ctx, *old(ui), m)
                },
        ensures
            final(comp).inv(),
            old(out)@.len() <= final(out)@.len(),
            final(out)@.take(old(out)@.len() as int) == old(out)@,
            exists|c1: C, m: T|
                #![trigger old(comp).process_rel(*ctx, old(self).state, c1, m)]
                {
                    &&& old(comp).process_rel(*ctx, old(self).state, c1, m)
                    &&& c1.render_rel(*ctx, m, final(out)@.skip(old(out)@.len() as int))
                    &&& c1.ui_rel(*ctx, *old(ui), m, *final(comp), *final(ui), final(self).state)
                },
    {
        comp.process(ctx, &mut self.state);
        let ghost c1 = *comp;
        let ghost m = self.state;
        comp.render(ctx, &self.state, out);
        comp.ui(ctx, ui, &mut self.state);
        proof {
            assert(old(comp).process_rel(*ctx, old(self).state, c1, m));
        }
    }
}

impl<T: Default> StateFull<T> {
    /// Creates a new instance with the default value for the state.
    pub fn new() -> (r: Self)
        ensures
            call_ensures(<T as Default>::default, (), r.state),
    {
        StateFull { state: Default::default() }
    }
}

impl<T: Default> Default for StateFull<T> {
    fn default() -> (r: Self)
        ensures
            call_ensures(<T as Default>::default, (), r.state),
    {
        StateFull::new()
    }
}

} // verus!
