//! The render pass's output: an ordered buffer of draw commands.
//!
//! Nodes never reach a drawing backend directly; their `render` pass
//! appends commands here and the host replays the buffer after the
//! frame's passes have run.

use vstd::prelude::*;

verus! {

/// An RGBA colour, eight bits per channel.
#[derive(Clone, Copy, Debug, PartialEq, Eq, Structural)]
pub struct Color {
    pub r: u8,
    pub g: u8,
    pub b: u8,
    pub a: u8,
}

/// One drawing instruction, in fixed-point viewport coordinates.
#[derive(Clone, Debug)]
pub enum DrawCmd {
    /// Fill the whole target with a colour.
    Clear { color: Color },
    /// An axis-aligned filled rectangle.
    Rect { x: i64, y: i64, w: i64, h: i64, color: Color },
    /// A line of text anchored at a baseline position.
    Text { text: String, x: i64, y: i64, font_size: i64, color: Color },
    /// One layer of an externally loaded tile map, identified by the
    /// host's handle for the map.
    TiledLayer {
        map: u64,
        layer: String,
        dest_x: i64,
        dest_y: i64,
        dest_w: i64,
        dest_h: i64,
        source: Option<(i64, i64, i64, i64)>,
    },
    /// Everything until the matching `ViewportEnd` is drawn inside an
    /// off-screen target of this size, then scaled onto the window.
    ViewportBegin { w: i64, h: i64 },
    /// Closes the innermost open `ViewportBegin`.
    ViewportEnd,
}

/// The ordered draw commands of one frame.
#[derive(Clone, Debug)]
pub struct Frame {
    pub cmds: Vec<DrawCmd>,
}

impl View for Frame {
    type V = Seq<DrawCmd>;

    open spec fn view(&self) -> Seq<DrawCmd> {
        self.cmds@
    }
}

impl Frame {
    /// An empty buffer for a new frame.
    pub fn new() -> (r: Frame)
        ensures
            r@ == Seq::<DrawCmd>::empty(),
    {
        Frame { cmds: Vec::new() }
    }

    /// The commands in the order they were emitted.
    pub fn commands(&self) -> (r: &Vec<DrawCmd>)
        ensures
            r@ == self@,
    {
        &self.cmds
    }

    pub fn clear_background(&mut self, color: Color)
        ensures
            final(self)@ == old(self)@.push(DrawCmd::Clear { color }),
    {
        self.cmds.push(DrawCmd::Clear { color });
    }

    pub fn draw_rectangle(&mut self, x: i64, y: i64, w: i64, h: i64, color: Color)
        ensures
            final(self)@ == old(self)@.push(DrawCmd::Rect { x, y, w, h, color }),
    {
        self.cmds.push(DrawCmd::Rect { x, y, w, h, color });
    }

    pub fn draw_text(&mut self, text: String, x: i64, y: i64, font_size: i64, color: Color)
        ensures
            final(self)@ == old(self)@.push(DrawCmd::Text { text, x, y, font_size, color }),
    {
        self.cmds.push(DrawCmd::Text { text, x, y, font_size, color });
    }

    pub fn push(&mut self, cmd: DrawCmd)
        ensures
            final(self)@ == old(self)@.push(cmd),
    {
        self.cmds.push(cmd);
    }
}

} // verus!
