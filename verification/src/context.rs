//! The read-only per-frame environment.
//!
//! The driving loop builds one `Context` per frame from what the host
//! reports (window size, elapsed time, pointer position, keys held) and
//! passes it down the tree by reference; nodes never mutate it.

use vstd::prelude::*;

use crate::fixed::{div_nn, MAX_MAGNITUDE, SCALE};

verus! {

/// Per-frame environment handed to every node.
///
/// All lengths and times are fixed-point millionths; `keys_down` holds
/// the host key codes currently held.
#[derive(Clone, Debug)]
pub struct Context {
    pub viewport_w: i64,
    pub viewport_h: i64,
    pub window_w: i64,
    pub window_h: i64,
    pub delta: i64,
    pub mouse_x: i64,
    pub mouse_y: i64,
    pub keys_down: Vec<u32>,
}

impl Context {
    /// Field bounds every well-formed context keeps: positive viewport,
    /// non-negative window and frame time, all magnitudes small enough
    /// that products with `SCALE` stay inside `i64`.
    pub open spec fn wf(self) -> bool {
        &&& 0 < self.viewport_w <= MAX_MAGNITUDE
        &&& 0 < self.viewport_h <= MAX_MAGNITUDE
        &&& 0 <= self.window_w <= MAX_MAGNITUDE
        &&& 0 <= self.window_h <= MAX_MAGNITUDE
        &&& 0 <= self.delta <= MAX_MAGNITUDE
        &&& -MAX_MAGNITUDE <= self.mouse_x <= MAX_MAGNITUDE
        &&& -MAX_MAGNITUDE <= self.mouse_y <= MAX_MAGNITUDE
    }

    pub open spec fn spec_viewport_size(self) -> (int, int) {
        (self.viewport_w as int, self.viewport_h as int)
    }

    pub open spec fn spec_window_size(self) -> (int, int) {
        (self.window_w as int, self.window_h as int)
    }

    pub open spec fn spec_delta(self) -> int {
        self.delta as int
    }

    pub open spec fn spec_mouse(self) -> (int, int) {
        (self.mouse_x as int, self.mouse_y as int)
    }

    pub open spec fn spec_keys_down(self) -> Seq<u32> {
        self.keys_down@
    }

    /// The uniform scale from viewport to window space: the smaller of
    /// the two axis ratios, in fixed point.
    pub open spec fn spec_scale(self) -> int {
        let sx = self.window_w * SCALE / (self.viewport_w as int);
        let sy = self.window_h * SCALE / (self.viewport_h as int);
        if sx <= sy {
            sx
        } else {
            sy
        }
    }

    /// One pointer coordinate carried from window space into viewport
    /// space: subtract the letterbox offset, then divide the scale out.
    /// A degenerate zero scale maps everything to the origin.
    pub open spec fn spec_mouse_axis(mouse: int, window: int, viewport: int, scale: int) -> int {
        if scale == 0 {
            0
        } else {
            let off = window - viewport * scale / (SCALE as int);
            if mouse >= off {
                (mouse - off) * SCALE / scale
            } else {
                -((off - mouse) * SCALE / scale)
            }
        }
    }

    /// Builds the context for one frame from host-reported values.
    pub fn new(
        viewport_w: i64,
        viewport_h: i64,
        window_w: i64,
        window_h: i64,
        delta: i64,
        mouse_x: i64,
        mouse_y: i64,
        keys_down: Vec<u32>,
    ) -> (r: Context)
        requires
            0 < viewport_w <= MAX_MAGNITUDE,
            0 < viewport_h <= MAX_MAGNITUDE,
            0 <= window_w <= MAX_MAGNITUDE,
            0 <= window_h <= MAX_MAGNITUDE,
            0 <= delta <= MAX_MAGNITUDE,
            -MAX_MAGNITUDE <= mouse_x <= MAX_MAGNITUDE,
            -MAX_MAGNITUDE <= mouse_y <= MAX_MAGNITUDE,
        ensures
            r.wf(),
            r.spec_viewport_size() == (viewport_w as int, viewport_h as int),
            r.spec_window_size() == (window_w as int, window_h as int),
            r.spec_delta() == delta as int,
            r.spec_mouse() == (mouse_x as int, mouse_y as int),
            r.spec_keys_down() == keys_down@,
    {
        Context { viewport_w, viewport_h, window_w, window_h, delta, mouse_x, mouse_y, keys_down }
    }

    pub fn viewport_size(&self) -> (r: (i64, i64))
        ensures
            (r.0 as int, r.1 as int) == self.spec_viewport_size(),
    {
        (self.viewport_w, self.viewport_h)
    }

    pub fn window_size(&self) -> (r: (i64, i64))
        ensures
            (r.0 as int, r.1 as int) == self.spec_window_size(),
    {
        (self.window_w, self.window_h)
    }

    /// Elapsed frame time in fixed-point seconds.
    pub fn get_delta(&self) -> (r: i64)
        ensures
            r as int == self.spec_delta(),
    {
        self.delta
    }

    /// Whether the host currently reports `key` as held.
    pub fn is_key_down(&self, key: u32) -> (r: bool)
        ensures
            r == self.spec_keys_down().contains(key),
    {
        let mut i: usize = 0;
        while i < self.keys_down.len()
            invariant
                0 <= i <= self.keys_down.len(),
                forall|j: int| 0 <= j < i ==> self.keys_down@[j] != key,
            decreases self.keys_down.len() - i,
        {
            if self.keys_down[i] == key {
                return true;
            }
            i += 1;
        }
        false
    }

    /// The smaller of the two window-per-viewport axis ratios.
    pub fn get_scale(&self) -> (r: i64)
        requires
            self.wf(),
        ensures
            r as int == self.spec_scale(),
            0 <= r,
    {
        let sx = div_nn(self.window_w * SCALE, self.viewport_w);
        let sy = div_nn(self.window_h * SCALE, self.viewport_h);
        if sx <= sy {
            sx
        } else {
            sy
        }
    }

    /// The pointer position carried into viewport space.
    pub fn get_mouse_location(&self) -> (r: (i64, i64))
        requires
            self.wf(),
        ensures
            r.0 as int == Context::spec_mouse_axis(
                self.spec_mouse().0,
                self.spec_window_size().0,
                self.spec_viewport_size().0,
                self.spec_scale(),
            ),
            r.1 as int == Context::spec_mouse_axis(
                self.spec_mouse().1,
                self.spec_window_size().1,
                self.spec_viewport_size().1,
                self.spec_scale(),
            ),
    {
        let scale = self.get_scale();
        if scale == 0 {
            (0, 0)
        } else {
            proof {
                Context::lemma_ratio_floor(self.window_w as int, self.viewport_w as int);
                Context::lemma_ratio_floor(self.window_h as int, self.viewport_h as int);
                let sx = self.window_w * SCALE / (self.viewport_w as int);
                let sy = self.window_h * SCALE / (self.viewport_h as int);
                assert(self.viewport_w * (scale as int) <= self.viewport_w * sx) by (nonlinear_arith)
                    requires
                        0 <= self.viewport_w,
                        scale as int <= sx,
                ;
                assert(self.viewport_h * (scale as int) <= self.viewport_h * sy) by (nonlinear_arith)
                    requires
                        0 <= self.viewport_h,
                        scale as int <= sy,
                ;
            }
            let x = Context::mouse_axis(self.mouse_x, self.window_w, self.viewport_w, scale);
            let y = Context::mouse_axis(self.mouse_y, self.window_h, self.viewport_h, scale);
            (x, y)
        }
    }

    /// The floored axis ratio scaled back up never exceeds the window
    /// extent: `viewport * (window * SCALE / viewport) <= window * SCALE`.
    proof fn lemma_ratio_floor(window: int, viewport: int)
        requires
            0 < viewport,
            0 <= window,
        ensures
            viewport * (window * SCALE / viewport) <= window * SCALE,
    {
        vstd::arithmetic::div_mod::lemma_fundamental_div_mod(window * SCALE, viewport);
        vstd::arithmetic::div_mod::lemma_mod_division_less_than_divisor(window * SCALE, viewport);
    }

    /// One axis of the pointer transform; `scale` must not exceed this
    /// axis's own ratio, so the letterbox offset cannot be negative.
    fn mouse_axis(mouse: i64, window: i64, viewport: i64, scale: i64) -> (r: i64)
        requires
            0 < viewport <= MAX_MAGNITUDE,
            0 <= window <= MAX_MAGNITUDE,
            -MAX_MAGNITUDE <= mouse <= MAX_MAGNITUDE,
            0 < scale,
            viewport * scale <= window * SCALE,
        ensures
            r as int == Context::spec_mouse_axis(
                mouse as int,
                window as int,
                viewport as int,
                scale as int,
            ),
    {
        proof {
            assert(0 <= viewport * scale) by (nonlinear_arith)
                requires
                    0 < viewport,
                    0 < scale,
            ;
            vstd::arithmetic::div_mod::lemma_div_pos_is_pos(viewport * scale, SCALE as int);
            assert(viewport * scale / (SCALE as int) <= window) by {
                vstd::arithmetic::div_mod::lemma_div_is_ordered(
                    viewport * scale,
                    window * SCALE,
                    SCALE as int,
                );
                vstd::arithmetic::div_mod::lemma_div_by_multiple(window as int, SCALE as int);
            }
        }
        let off = window - div_nn(viewport * scale, SCALE);
        if mouse >= off {
            ((div_nn((mouse - off) * SCALE, scale)))
        } else {
            -(div_nn((off - mouse) * SCALE, scale))
        }
    }
}

} // verus!
