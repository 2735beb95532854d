//! Paint commands and the text box that most modules are drawn with.
//!
//! The library paints nothing itself: a module renders to a list of
//! commands, in whole pixels, and says where the cursor stands afterwards.

use vstd::prelude::*;
use crate::utils::cairo_source_rgb_hex;
use crate::utils::Color;
use crate::utils::spec_rgb_hex;

verus! {

/// The side from which a box grows.
#[derive(Clone, Copy, Debug, PartialEq, Eq, Structural)]
pub enum Alignment {
    Left,
    Right,
}

/// The size of a laid-out text, as the text backend measured it.
#[derive(Clone, Copy, Debug, PartialEq, Eq, Structural)]
pub struct TextExtent {
    pub width: u32,
    pub height: u32,
}

/// One step of painting. `x` grows to the right and `y` downwards, from the
/// top left corner of the strip.
#[derive(Debug)]
pub enum DrawCommand {
    /// Fill the whole strip.
    Paint { color: Color },
    /// Fill a rectangle.
    Rectangle { color: Color, x: i64, y: i64, width: i64, height: i64 },
    /// Show a text whose top left corner is at `(x, y)`.
    Text { color: Color, x: i64, y: i64, text: String },
}

/// A paint command over mathematical integers and characters.
pub enum DrawCommandView {
    Paint { color: Color },
    Rectangle { color: Color, x: int, y: int, width: int, height: int },
    Text { color: Color, x: int, y: int, text: Seq<char> },
}

impl View for DrawCommand {
    type V = DrawCommandView;

    open spec fn view(&self) -> DrawCommandView {
        match *self {
            DrawCommand::Paint { color } => DrawCommandView::Paint { color },
            DrawCommand::Rectangle { color, x, y, width, height } => DrawCommandView::Rectangle {
                color,
                x: x as int,
                y: y as int,
                width: width as int,
                height: height as int,
            },
            DrawCommand::Text { color, x, y, text } => DrawCommandView::Text {
                color,
                x: x as int,
                y: y as int,
                text: text@,
            },
        }
    }
}

/// The views of a list of commands.
pub open spec fn command_views(commands: Seq<DrawCommand>) -> Seq<DrawCommandView> {
    commands.map_values(|c: DrawCommand| c@)
}

/// Whether `x` is a position that a cursor can hold.
pub open spec fn is_position(x: int) -> bool {
    i64::MIN <= x <= i64::MAX
}

/// The offset that centres a length `inner` within a length `outer`; where
/// it does not fit, the offset is negative. Halves are cut off towards zero.
pub open spec fn centred(outer: u32, inner: u32) -> int {
    if outer >= inner {
        (outer - inner) / 2
    } else {
        -((inner - outer) / 2)
    }
}

/// A text in a filled box that stands at a cursor.
#[derive(Debug)]
pub struct CairoTextBox {
    pub text: String,
    pub height: u32,
    pub color_text: u32,
    pub color_box: u32,
    pub alignment: Alignment,
    pub align: i64,
    pub margin: u32,
}

/// A text box over characters.
pub struct CairoTextBoxView {
    pub text: Seq<char>,
    pub height: u32,
    pub color_text: u32,
    pub color_box: u32,
    pub alignment: Alignment,
    pub align: int,
    pub margin: u32,
}

impl View for CairoTextBox {
    type V = CairoTextBoxView;

    open spec fn view(&self) -> CairoTextBoxView {
        CairoTextBoxView {
            text: self.text@,
            height: self.height,
            color_text: self.color_text,
            color_box: self.color_box,
            alignment: self.alignment,
            align: self.align as int,
            margin: self.margin,
        }
    }
}

impl CairoTextBoxView {
    /// The width of the box: the text and a margin on either side.
    pub open spec fn width(self, extent: TextExtent) -> int {
        extent.width + 2 * self.margin
    }

    /// The left edge of the box. A left-aligned box starts at `align`, a
    /// right-aligned one ends there.
    pub open spec fn left(self, extent: TextExtent) -> int {
        match self.alignment {
            Alignment::Left => self.align,
            Alignment::Right => self.align - self.width(extent),
        }
    }

    /// Where the cursor stands after the box: at its far edge.
    pub open spec fn cursor(self, extent: TextExtent) -> int {
        match self.alignment {
            Alignment::Left => self.align + self.width(extent),
            Alignment::Right => self.align - self.width(extent),
        }
    }

    /// The box, then the text: over the full height, the text centred
    /// vertically and one margin in from the left edge.
    pub open spec fn commands(self, extent: TextExtent) -> Seq<DrawCommandView> {
        seq![
            DrawCommandView::Rectangle {
                color: spec_rgb_hex(self.color_box),
                x: self.left(extent),
                y: 0,
                width: self.width(extent),
                height: self.height as int,
            },
            DrawCommandView::Text {
                color: spec_rgb_hex(self.color_text),
                x: self.left(extent) + self.margin,
                y: centred(self.height, extent.height),
                text: self.text,
            },
        ]
    }
}

/// The offset that centres `inner` within `outer`.
pub fn centre(outer: u32, inner: u32) -> (offset: i64)
    ensures
        offset == centred(outer, inner),
{
    if outer >= inner {
        ((outer - inner) / 2) as i64
    } else {
        -(((inner - outer) / 2) as i64)
    }
}

impl CairoTextBox {
    /// Draws the box for a text of the given size: appends its commands to
    /// `out` and returns the cursor after it. Where that cursor is no
    /// position, nothing is drawn.
    pub fn draw(&self, extent: TextExtent, out: &mut Vec<DrawCommand>) -> (cursor: Option<i64>)
        ensures
            match cursor {
                Some(c) => {
                    &&& c == self@.cursor(extent)
                    &&& command_views(final(out)@) == command_views(old(out)@) + self@.commands(
                        extent,
                    )
                },
                None => !is_position(self@.cursor(extent)) && final(out)@ == old(out)@,
            },
    {
        let width: i64 = extent.width as i64 + 2 * (self.margin as i64);
        let (left, cursor) = match self.alignment {
            Alignment::Left => {
                match self.align.checked_add(width) {
                    Some(end) => (self.align, end),
                    None => { return None; },
                }
            },
            Alignment::Right => {
                match self.align.checked_sub(width) {
                    Some(start) => (start, start),
                    None => { return None; },
                }
            },
        };
        let background = DrawCommand::Rectangle {
            color: cairo_source_rgb_hex(self.color_box),
            x: left,
            y: 0,
            width,
            height: self.height as i64,
        };
        let label = DrawCommand::Text {
            color: cairo_source_rgb_hex(self.color_text),
            x: left + self.margin as i64,
            y: centre(self.height, extent.height),
            text: self.text.clone(),
        };
        out.push(background);
        out.push(label);
        assert(command_views(out@) =~= command_views(old(out)@) + self@.commands(extent));
        Some(cursor)
    }
}

} // verus!
