//! The local time, in a box that grows to the left.

use std::fmt::Write;
use vstd::prelude::*;
use vstd::string::StringExecFns;
use crate::config::BLOCK_MARGIN;
use crate::config::COLOR_BG_CLOCK;
use crate::config::COLOR_TEXT;
use crate::config::DATE_FORMAT;
use crate::geometry::DynamicConfig;
use crate::modules::Rendered;
use crate::modules::RenderedView;
use crate::textbox::Alignment;
use crate::textbox::CairoTextBox;
use crate::textbox::CairoTextBoxView;
use crate::textbox::DrawCommand;
use crate::textbox::is_position;
use crate::textbox::TextExtent;

verus! {

/// Shows the local time.
#[derive(Clone, Copy, Debug, PartialEq, Eq, Structural)]
pub struct Clock {}

/// A moment: seconds and nanoseconds since the start of 1970 in UTC, and
/// the seconds by which the local time is ahead of UTC.
#[derive(Clone, Copy, Debug, PartialEq, Eq, Structural)]
pub struct Moment {
    pub seconds: i64,
    pub nanos: u32,
    pub offset: i32,
}

/// The text that chrono writes for a moment as `format` says (strftime
/// syntax), in the time of the given offset; `None` where chrono has no
/// such moment or offset, or cannot write it so.
pub uninterp spec fn formatted_time(seconds: i64, nanos: u32, offset: i32, format: Seq<char>) -> Option<
    Seq<char>,
>;

impl Clock {
    /// The box of the clock: right-aligned at `align`.
    pub open spec fn text_box(dyn_config: DynamicConfig, align: int, text: Seq<char>)
        -> CairoTextBoxView {
        CairoTextBoxView {
            text,
            height: dyn_config.height,
            color_text: COLOR_TEXT,
            color_box: COLOR_BG_CLOCK,
            alignment: Alignment::Right,
            align,
            margin: BLOCK_MARGIN,
        }
    }

    /// The clock's box with `text` in it, where its left edge is a position.
    pub open spec fn spec_render(
        dyn_config: DynamicConfig,
        align: int,
        text: Seq<char>,
        extent: TextExtent,
    ) -> Option<RenderedView> {
        let b = Self::text_box(dyn_config, align, text);
        if is_position(b.cursor(extent)) {
            Some(RenderedView { commands: b.commands(extent), cursor: b.cursor(extent) })
        } else {
            None
        }
    }

    /// The text that the clock shows now; `None` where the time cannot be
    /// written.
    pub fn now_text(&self) -> (text: Option<String>)
        ensures
            Self::shows_a_moment(
                match text {
                    Some(t) => Some(t@),
                    None => None,
                },
            ),
    {
        let moment = local_now();
        let text = format_moment(moment, DATE_FORMAT);
        assert(Self::spec_text_at(moment) == match text {
            Some(t) => Some(t@),
            None => None,
        });
        text
    }

    /// The text that the clock shows at `moment`: the moment written in the
    /// clock's format.
    pub open spec fn spec_text_at(moment: Moment) -> Option<Seq<char>> {
        formatted_time(moment.seconds, moment.nanos, moment.offset, DATE_FORMAT@)
    }

    /// Whether `text` is what the clock shows at some moment.
    pub open spec fn shows_a_moment(text: Option<Seq<char>>) -> bool {
        exists|moment: Moment| #[trigger] Self::spec_text_at(moment) == text
    }

    /// The text that the clock shows at `moment`; `None` where the moment
    /// cannot be written.
    pub fn text_at(&self, moment: Moment) -> (text: Option<String>)
        ensures
            match text {
                Some(t) => Self::spec_text_at(moment) == Some(t@),
                None => Self::spec_text_at(moment) is None,
            },
    {
        format_moment(moment, DATE_FORMAT)
    }

    /// Renders the clock with `text`, whose size is `extent`.
    pub fn render(&self, dyn_config: DynamicConfig, align: i64, text: &str, extent: TextExtent) -> (out:
        Option<Rendered>)
        ensures
            match out {
                Some(r) => Self::spec_render(dyn_config, align as int, text@, extent) == Some(r@),
                None => Self::spec_render(dyn_config, align as int, text@, extent) is None,
            },
    {
        let b = CairoTextBox {
            text: String::from_str(text),
            height: dyn_config.height,
            color_text: COLOR_TEXT,
            color_box: COLOR_BG_CLOCK,
            alignment: Alignment::Right,
            align,
            margin: BLOCK_MARGIN,
        };
        assert(b@ == Self::text_box(dyn_config, align as int, text@));
        let mut commands: Vec<DrawCommand> = Vec::new();
        match b.draw(extent, &mut commands) {
            Some(cursor) => {
                assert(commands@.map_values(|c: DrawCommand| c@) =~= b@.commands(extent));
                Some(Rendered { commands, cursor })
            },
            None => None,
        }
    }
}

/// This moment, by the clock and the time zone of the machine.
///
/// Calls `chrono::Local::now` and reads the moment off with
/// `DateTime::timestamp`, `DateTime::timestamp_subsec_nanos` and
/// `FixedOffset::local_minus_utc`. Nothing is claimed of the result.
#[verifier::external_body]
fn local_now() -> (moment: Moment) {
    let now = chrono::Local::now();
    Moment {
        seconds: now.timestamp(),
        nanos: now.timestamp_subsec_nanos(),
        offset: now.offset().local_minus_utc(),
    }
}

/// Writes `moment` as `format` says.
///
/// Makes the moment with `chrono::DateTime::from_timestamp` and the offset
/// with `chrono::FixedOffset::east_opt`, and writes what
/// `DateTime::format` gives to a string. The contract gives the result its
/// name and claims nothing else: what chrono writes depends on the moment
/// and on `format` alone.
#[verifier::external_body]
fn format_moment(moment: Moment, format: &str) -> (text: Option<String>)
    ensures
        match text {
            Some(t) => formatted_time(moment.seconds, moment.nanos, moment.offset, format@) == Some(
                t@,
            ),
            None => formatted_time(moment.seconds, moment.nanos, moment.offset, format@) is None,
        },
{
    let offset = chrono::FixedOffset::east_opt(moment.offset)?;
    let utc = chrono::DateTime::from_timestamp(moment.seconds, moment.nanos)?;
    let mut text = String::new();
    match write!(text, "{}", utc.with_timezone(&offset).format(format)) {
        Ok(_) => Some(text),
        Err(_) => None,
    }
}

} // verus!
