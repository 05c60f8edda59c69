//! The tile-map layer node.

use vstd::prelude::*;

use crate::component::Component;
use crate::context::Context;
use crate::frame::{DrawCmd, Frame};
use crate::ui::Ui;

verus! {

/// One layer of a tile map to draw: the host's handle for the loaded
/// map, the layer's name, the destination rectangle and an optional
/// source rectangle, in fixed-point coordinates.
#[derive(Debug)]
pub struct TiledProperties {
    pub map: u64,
    pub layer: String,
    pub dest: (i64, i64, i64, i64),
    pub source: Option<(i64, i64, i64, i64)>,
}

/// Draws one tile-map layer from its properties.
pub struct Tiled;

impl Component<TiledProperties> for Tiled {
    type Input = ();

    open spec fn input_inv(input: Self::Input) -> bool {
        true
    }

    open spec fn made(input: Self::Input) -> Self {
        Tiled
    }

    open spec fn inv(self) -> bool {
        true
    }

    open spec fn process_req(self, ctx: Context, s: TiledProperties) -> bool {
        true
    }

    open spec fn process_rel(
        self,
        ctx: Context,
        s: TiledProperties,
        new_self: Self,
        new_s: TiledProperties,
    ) -> bool {
        new_s == s
    }

    open spec fn render_req(self, ctx: Context, s: TiledProperties) -> bool {
        true
    }

    open spec fn render_rel(self, ctx: Context, s: TiledProperties, emitted: Seq<DrawCmd>) -> bool {
        emitted == seq![
            DrawCmd::TiledLayer {
                map: s.map,
                layer: s.layer,
                dest_x: s.dest.0,
                dest_y: s.dest.1,
                dest_w: s.dest.2,
                dest_h: s.dest.3,
                source: s.source,
            },
        ]
    }

    open spec fn ui_req(self, ctx: Context, ui: Ui, s: TiledProperties) -> bool {
        true
    }

    open spec fn ui_rel(
        self,
        ctx: Context,
        ui: Ui,
        s: TiledProperties,
        new_self: Self,
        new_ui: Ui,
        new_s: TiledProperties,
    ) -> bool {
        new_ui == ui && new_s == s
    }

    fn instantiate(input: Self::Input) -> (r: Self) {
        Tiled
    }

    fn process(&mut self, ctx: &Context, s: &mut TiledProperties) {
    }

    fn render(&self, ctx: &Context, s: &TiledProperties, out: &mut Frame) {
        let layer = s.layer.clone();
        out.push(
            DrawCmd::TiledLayer {
                map: s.map,
                layer,
                dest_x: s.dest.0,
                dest_y: s.dest.1,
                dest_w: s.dest.2,
                dest_h: s.dest.3,
                source: s.source,
            },
        );
        proof {
            assert(out@.take(old(out)@.len() as int) =~= old(out)@);
            assert(out@.skip(old(out)@.len() as int) =~= seq![
                DrawCmd::TiledLayer {
                    map: s.map,
                    layer: s.layer,
                    dest_x: s.dest.0,
                    dest_y: s.dest.1,
                    dest_w: s.dest.2,
                    dest_h: s.dest.3,
                    source: s.source,
                },
            ]);
        }
    }

    fn ui(&mut self, ctx: &Context, ui: &mut Ui, s: &mut TiledProperties) {
    }
}

} // verus!
