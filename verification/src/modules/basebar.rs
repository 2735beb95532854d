//! The background of the strip.

use vstd::prelude::*;
use crate::config::COLOR_BG;
use crate::geometry::DynamicConfig;
use crate::modules::Rendered;
use crate::modules::RenderedView;
use crate::textbox::command_views;
use crate::textbox::DrawCommand;
use crate::textbox::DrawCommandView;
use crate::utils::cairo_source_rgb_hex;
use crate::utils::spec_rgb_hex;

verus! {

/// Fills the whole strip with the background colour.
#[derive(Clone, Copy, Debug, PartialEq, Eq, Structural)]
pub struct BaseBar {}

impl BaseBar {
    /// One fill of the whole strip; the cursor stays where it is.
    pub open spec fn spec_render(align: int) -> RenderedView {
        RenderedView {
            commands: seq![DrawCommandView::Paint { color: spec_rgb_hex(COLOR_BG) }],
            cursor: align,
        }
    }

    /// Renders the background.
    pub fn render(&self, _dyn_config: DynamicConfig, align: i64) -> (out: Rendered)
        ensures
            out@ == Self::spec_render(align as int),
    {
        let mut commands: Vec<DrawCommand> = Vec::new();
        commands.push(DrawCommand::Paint { color: cairo_source_rgb_hex(COLOR_BG) });
        assert(command_views(commands@) =~= Self::spec_render(align as int).commands);
        Rendered { commands, cursor: align }
    }
}

} // verus!
