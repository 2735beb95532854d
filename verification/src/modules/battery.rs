//! The charge of the batteries: a symbol and a percentage for each, from
//! right to left.

use vstd::prelude::*;
use vstd::string::StringExecFns;
use crate::config::BLOCK_MARGIN;
use crate::config::COLOR_BG_BATTERY;
use crate::config::COLOR_TEXT;
use crate::geometry::DynamicConfig;
use crate::geometry::texts;
use crate::modules::Rendered;
use crate::modules::RenderedView;
use crate::number::decimal_text;
use crate::number::parse_i32;
use crate::number::spec_decimal;
use crate::number::spec_i32;
use crate::textbox::Alignment;
use crate::textbox::CairoTextBox;
use crate::textbox::CairoTextBoxView;
use crate::textbox::command_views;
use crate::textbox::DrawCommand;
use crate::textbox::DrawCommandView;
use crate::textbox::is_position;
use crate::textbox::TextExtent;
use crate::utils::cairo_source_rgb_hex;
use crate::utils::cairo_source_rgb_rgfade;
use crate::utils::spec_rgb_hex;
use crate::utils::spec_rgb_rgfade;

verus! {

/// Space around the battery symbol, to its left and to its right.
pub const SYMBOL_MARGIN: u32 = 3;

/// Width of the connector piece at the right end of the symbol.
pub const CONNECTOR_WIDTH: u32 = 3;

/// The colour of the symbol's outline.
pub const COLOR_SYMBOL: u32 = 0x0;

/// Shows the charge of the batteries whose directories `dirs` names. Each
/// directory ends in a slash and holds a file `capacity`.
#[derive(Debug)]
pub struct Battery {
    pub dirs: Vec<String>,
}

/// A battery module over characters.
pub struct BatteryView {
    pub dirs: Seq<Seq<char>>,
}

impl View for Battery {
    type V = BatteryView;

    open spec fn view(&self) -> BatteryView {
        BatteryView { dirs: texts(self.dirs@) }
    }
}

/// The charge that the first line of a `capacity` file gives, in percent: a
/// whole number that is not negative; what lies above 100 counts as 100.
pub open spec fn spec_percentage(reading: Seq<char>) -> Option<u8> {
    match spec_i32(reading) {
        Some(v) => if v < 0 {
            None
        } else if v > 100 {
            Some(100u8)
        } else {
            Some(v as u8)
        },
        None => None,
    }
}

/// Whether each of the readings gives a charge.
pub open spec fn all_readable(readings: Seq<Seq<char>>) -> bool {
    forall|i: int| 0 <= i < readings.len() ==> spec_percentage(#[trigger] readings[i]) is Some
}

/// The text beside a battery: its charge and a percent sign.
pub open spec fn percent_label(percent: u8) -> Seq<char> {
    spec_decimal(percent as nat).push('%')
}

/// The labels of the batteries, where each reading gives a charge.
pub open spec fn spec_labels(readings: Seq<Seq<char>>) -> Seq<Seq<char>> {
    Seq::new(readings.len(), |i: int| percent_label(spec_percentage(readings[i])->0))
}

/// Space between a battery and what stands to its right: the first keeps
/// the full block margin, the others half of it.
pub open spec fn battery_margin(index: int) -> int {
    if index > 0 {
        BLOCK_MARGIN as int / 2
    } else {
        BLOCK_MARGIN as int
    }
}

/// Height of the symbol: six tenths of the strip's.
pub open spec fn symbol_height(height: u32) -> int {
    height * 6 / 10
}

/// Width of the symbol: five quarters of the strip's height.
pub open spec fn symbol_width(height: u32) -> int {
    height * 125 / 100
}

/// Space between the symbol's outline and its filling.
pub open spec fn fill_margin(height: u32) -> int {
    height * 15 / 100
}

/// The left edge of the cell of the symbol of the battery that ends at
/// `align`.
pub open spec fn symbol_left(height: u32, index: int, align: int) -> int {
    align - (symbol_width(height) + 2 * SYMBOL_MARGIN) - battery_margin(index)
}

/// The label of a battery: a box that ends where the symbol's cell starts.
pub open spec fn label_box(height: u32, index: int, align: int, percent: u8) -> CairoTextBoxView {
    CairoTextBoxView {
        text: percent_label(percent),
        height,
        color_text: COLOR_TEXT,
        color_box: COLOR_BG_BATTERY,
        alignment: Alignment::Right,
        align: symbol_left(height, index, align),
        margin: BLOCK_MARGIN,
    }
}

/// How far one battery moves the cursor to the left.
pub open spec fn battery_advance(height: u32, index: int, extent: TextExtent) -> int {
    symbol_width(height) + 2 * SYMBOL_MARGIN + battery_margin(index) + extent.width + 2
        * BLOCK_MARGIN
}

/// The symbol of a battery that ends at `align`: the background of its
/// cell, the outline, the connector piece and the filling, which is as wide
/// as the charge is high and fades from red to green.
pub open spec fn symbol_commands(height: u32, index: int, align: int, percent: u8) -> Seq<
    DrawCommandView,
> {
    let margin = battery_margin(index);
    let w = symbol_width(height);
    let h = symbol_height(height);
    let inset = fill_margin(height);
    seq![
        DrawCommandView::Rectangle {
            color: spec_rgb_hex(COLOR_BG_BATTERY),
            x: symbol_left(height, index, align),
            y: 0,
            width: w + 2 * SYMBOL_MARGIN + margin,
            height: height as int,
        },
        DrawCommandView::Rectangle {
            color: spec_rgb_hex(COLOR_SYMBOL),
            x: align - (w + SYMBOL_MARGIN) - margin,
            y: (height - h) / 2,
            width: w,
            height: h,
        },
        DrawCommandView::Rectangle {
            color: spec_rgb_hex(COLOR_SYMBOL),
            x: align - SYMBOL_MARGIN - margin,
            y: (height - h / 2) / 2,
            width: CONNECTOR_WIDTH as int,
            height: h / 2,
        },
        DrawCommandView::Rectangle {
            color: spec_rgb_rgfade(percent),
            x: align - (w + SYMBOL_MARGIN) + inset - margin,
            y: (height - h) / 2 + inset,
            width: (w - 2 * inset) * percent / 100,
            height: h - 2 * inset,
        },
    ]
}

/// Where the cursor stands after the first `n` batteries, the first of
/// which ends at `start`.
pub open spec fn batteries_cursor(extents: Seq<TextExtent>, height: u32, n: nat, start: int) -> int
    decreases n,
{
    if n == 0 {
        start
    } else {
        batteries_cursor(extents, height, (n - 1) as nat, start) - battery_advance(
            height,
            n - 1,
            extents[n - 1],
        )
    }
}

/// The commands of the first `n` batteries, from right to left: for each
/// its symbol, then its label.
pub open spec fn batteries_commands(
    readings: Seq<Seq<char>>,
    extents: Seq<TextExtent>,
    height: u32,
    n: nat,
    start: int,
) -> Seq<DrawCommandView>
    decreases n,
{
    if n == 0 {
        seq![]
    } else {
        let at = batteries_cursor(extents, height, (n - 1) as nat, start);
        let percent = spec_percentage(readings[n - 1])->0;
        batteries_commands(readings, extents, height, (n - 1) as nat, start) + symbol_commands(
            height,
            n - 1,
            at,
            percent,
        ) + label_box(height, n - 1, at, percent).commands(extents[n - 1])
    }
}

/// The cursor never moves to the right from one battery to the next.
pub proof fn lemma_batteries_cursor_falls(
    extents: Seq<TextExtent>,
    height: u32,
    k: nat,
    n: nat,
    start: int,
)
    requires
        k <= n,
    ensures
        batteries_cursor(extents, height, n, start) <= batteries_cursor(extents, height, k, start),
    decreases n - k,
{
    if k < n {
        lemma_batteries_cursor_falls(extents, height, k + 1, n, start);
    }
}

/// The batteries move the cursor by the same distance wherever they start.
pub proof fn lemma_batteries_cursor_shift(
    extents: Seq<TextExtent>,
    height: u32,
    n: nat,
    start: int,
)
    ensures
        batteries_cursor(extents, height, n, start) == start + batteries_cursor(
            extents,
            height,
            n,
            0,
        ),
    decreases n,
{
    if n > 0 {
        lemma_batteries_cursor_shift(extents, height, (n - 1) as nat, start);
    }
}

impl Clone for Battery {
    fn clone(&self) -> (copy: Battery)
        ensures
            copy@ == self@,
    {
        let mut dirs: Vec<String> = Vec::new();
        let mut i: usize = 0;
        while i < self.dirs.len()
            invariant
                i <= self.dirs.len(),
                dirs.len() == i,
                forall|j: int| 0 <= j < i ==> dirs[j]@ == self.dirs[j]@,
            decreases self.dirs.len() - i,
        {
            dirs.push(self.dirs[i].clone());
            i = i + 1;
        }
        assert(texts(dirs@) =~= texts(self.dirs@));
        Battery { dirs }
    }
}

impl Battery {
    /// One symbol and one label for each battery. There is a rendering
    /// where each directory has its reading, each reading gives a charge
    /// and has the extent of its label, and the cursor after the last
    /// battery is a position.
    pub open spec fn spec_render_view(
        battery: BatteryView,
        dyn_config: DynamicConfig,
        align: int,
        readings: Seq<Seq<char>>,
        extents: Seq<TextExtent>,
    ) -> Option<RenderedView> {
        let n = readings.len();
        if n == battery.dirs.len() && n == extents.len() && all_readable(readings) && is_position(
            batteries_cursor(extents, dyn_config.height, n, align),
        ) {
            Some(
                RenderedView {
                    commands: batteries_commands(readings, extents, dyn_config.height, n, align),
                    cursor: batteries_cursor(extents, dyn_config.height, n, align),
                },
            )
        } else {
            None
        }
    }

    /// The files that hold the charges: `capacity` in each directory.
    pub fn capacity_paths(&self) -> (paths: Vec<String>)
        ensures
            paths.len() == self.dirs.len(),
            forall|i: int| 0 <= i < paths.len() ==> paths[i]@ == self.dirs[i]@ + "capacity"@,
    {
        let mut paths: Vec<String> = Vec::new();
        let mut i: usize = 0;
        while i < self.dirs.len()
            invariant
                i <= self.dirs.len(),
                paths.len() == i,
                forall|j: int| 0 <= j < i ==> paths[j]@ == self.dirs[j]@ + "capacity"@,
            decreases self.dirs.len() - i,
        {
            let mut path = self.dirs[i].clone();
            path.append("capacity");
            paths.push(path);
            i = i + 1;
        }
        paths
    }

    /// The charge that a reading gives.
    pub fn percentage(reading: &str) -> (percent: Option<u8>)
        ensures
            percent == spec_percentage(reading@),
            percent matches Some(p) ==> p <= 100,
    {
        match parse_i32(reading) {
            Some(v) => if v < 0 {
                None
            } else if v > 100 {
                Some(100)
            } else {
                Some(v as u8)
            },
            None => None,
        }
    }

    /// The label of a battery with the given charge.
    pub fn label(percent: u8) -> (text: String)
        ensures
            text@ == percent_label(percent),
    {
        let mut text = decimal_text(percent as u32);
        proof {
            reveal_strlit("%");
        }
        text.append("%");
        assert(text@ =~= percent_label(percent));
        text
    }

    /// The charges that the readings give; `None` where one gives none.
    pub fn percentages(readings: &Vec<String>) -> (percents: Option<Vec<u8>>)
        ensures
            match percents {
                Some(p) => {
                    &&& all_readable(texts(readings@))
                    &&& p.len() == readings.len()
                    &&& forall|i: int|
                        0 <= i < p.len() ==> Some(#[trigger] p[i]) == spec_percentage(
                            readings[i]@,
                        ) && p[i] <= 100
                },
                None => !all_readable(texts(readings@)),
            },
    {
        let mut percents: Vec<u8> = Vec::new();
        let mut i: usize = 0;
        while i < readings.len()
            invariant
                i <= readings.len(),
                percents.len() == i,
                forall|j: int|
                    0 <= j < i ==> Some(#[trigger] percents[j]) == spec_percentage(readings[j]@)
                        && percents[j] <= 100,
            decreases readings.len() - i,
        {
            match Self::percentage(readings[i].as_str()) {
                Some(p) => {
                    percents.push(p);
                },
                None => {
                    assert(texts(readings@)[i as int] == readings[i as int]@);
                    return None;
                },
            }
            i = i + 1;
        }
        assert forall|j: int| 0 <= j < readings.len() implies spec_percentage(
            #[trigger] texts(readings@)[j],
        ) is Some by {
            assert(texts(readings@)[j] == readings[j]@);
            assert(Some(percents[j]) == spec_percentage(readings[j]@));
        }
        Some(percents)
    }

    /// The texts that `render` will show for these readings, one for each
    /// battery; `None` where a reading is missing or gives no charge.
    pub fn labels(&self, readings: &Vec<String>) -> (labels: Option<Vec<String>>)
        ensures
            match labels {
                Some(l) => {
                    &&& readings.len() == self.dirs.len()
                    &&& all_readable(texts(readings@))
                    &&& texts(l@) == spec_labels(texts(readings@))
                },
                None => readings.len() != self.dirs.len() || !all_readable(texts(readings@)),
            },
    {
        if readings.len() != self.dirs.len() {
            return None;
        }
        let percents = match Self::percentages(readings) {
            Some(p) => p,
            None => { return None; },
        };
        let mut labels: Vec<String> = Vec::new();
        let mut i: usize = 0;
        while i < percents.len()
            invariant
                i <= percents.len(),
                labels.len() == i,
                percents.len() == readings.len(),
                forall|j: int|
                    0 <= j < percents.len() ==> Some(#[trigger] percents[j]) == spec_percentage(
                        readings[j]@,
                    ),
                forall|j: int| 0 <= j < i ==> labels[j]@ == percent_label(percents[j]),
            decreases percents.len() - i,
        {
            labels.push(Self::label(percents[i]));
            i = i + 1;
        }
        assert(texts(labels@) =~= spec_labels(texts(readings@))) by {
            assert forall|j: int| 0 <= j < labels.len() implies texts(labels@)[j] == spec_labels(
                texts(readings@),
            )[j] by {
                assert(Some(percents[j]) == spec_percentage(readings[j]@));
                assert(texts(readings@)[j] == readings[j]@);
            }
        }
        Some(labels)
    }

    /// Renders the batteries from their readings, each label with its
    /// extent.
    pub fn render(
        &self,
        dyn_config: DynamicConfig,
        align: i64,
        readings: &Vec<String>,
        extents: &Vec<TextExtent>,
    ) -> (out: Option<Rendered>)
        ensures
            match out {
                Some(r) => Self::spec_render_view(
                    self@,
                    dyn_config,
                    align as int,
                    texts(readings@),
                    extents@,
                ) == Some(r@),
                None => Self::spec_render_view(
                    self@,
                    dyn_config,
                    align as int,
                    texts(readings@),
                    extents@,
                ) is None,
            },
    {
        let ghost lines = texts(readings@);
        if readings.len() != self.dirs.len() || readings.len() != extents.len() {
            return None;
        }
        let percents = match Self::percentages(readings) {
            Some(p) => p,
            None => { return None; },
        };
        let count: usize = readings.len();
        let height: i64 = dyn_config.height as i64;
        let w: i64 = height * 125 / 100;
        let h: i64 = height * 6 / 10;
        let inset: i64 = height * 15 / 100;
        let mut commands: Vec<DrawCommand> = Vec::new();
        let mut cursor: i64 = align;
        let mut i: usize = 0;
        assert(command_views(commands@) =~= batteries_commands(
            lines,
            extents@,
            dyn_config.height,
            0,
            align as int,
        ));
        while i < count
            invariant
                i <= count,
                count == readings.len(),
                count == extents.len(),
                count == percents.len(),
                lines == texts(readings@),
                height == dyn_config.height,
                w == symbol_width(dyn_config.height),
                h == symbol_height(dyn_config.height),
                inset == fill_margin(dyn_config.height),
                forall|j: int|
                    0 <= j < count ==> Some(#[trigger] percents[j]) == spec_percentage(
                        readings[j]@,
                    ) && percents[j] <= 100,
                cursor == batteries_cursor(extents@, dyn_config.height, i as nat, align as int),
                command_views(commands@) == batteries_commands(
                    lines,
                    extents@,
                    dyn_config.height,
                    i as nat,
                    align as int,
                ),
            decreases count - i,
        {
            let percent: u8 = percents[i];
            assert(Some(percents[i as int]) == spec_percentage(readings[i as int]@));
            assert(lines[i as int] == readings[i as int]@);
            let margin: i64 = if i > 0 {
                (BLOCK_MARGIN / 2) as i64
            } else {
                BLOCK_MARGIN as i64
            };
            let cell: i64 = w + 2 * (SYMBOL_MARGIN as i64) + margin;
            let left = match cursor.checked_sub(cell) {
                Some(x) => x,
                None => {
                    proof {
                        lemma_batteries_cursor_falls(
                            extents@,
                            dyn_config.height,
                            (i + 1) as nat,
                            count as nat,
                            align as int,
                        );
                    }
                    return None;
                },
            };
            assert(left == symbol_left(dyn_config.height, i as int, cursor as int));
            let span: i64 = w - 2 * inset;
            assert(0 <= span * (percent as i64) <= 0x2_0000_0000 * 100) by (nonlinear_arith)
                requires
                    0 <= span <= 0x2_0000_0000,
                    0 <= percent <= 100,
            ;
            let ghost before = command_views(commands@);
            commands.push(
                DrawCommand::Rectangle {
                    color: cairo_source_rgb_hex(COLOR_BG_BATTERY),
                    x: left,
                    y: 0,
                    width: cell,
                    height,
                },
            );
            commands.push(
                DrawCommand::Rectangle {
                    color: cairo_source_rgb_hex(COLOR_SYMBOL),
                    x: cursor - (w + SYMBOL_MARGIN as i64) - margin,
                    y: (height - h) / 2,
                    width: w,
                    height: h,
                },
            );
            commands.push(
                DrawCommand::Rectangle {
                    color: cairo_source_rgb_hex(COLOR_SYMBOL),
                    x: cursor - SYMBOL_MARGIN as i64 - margin,
                    y: (height - h / 2) / 2,
                    width: CONNECTOR_WIDTH as i64,
                    height: h / 2,
                },
            );
            commands.push(
                DrawCommand::Rectangle {
                    color: cairo_source_rgb_rgfade(percent),
                    x: cursor - (w + SYMBOL_MARGIN as i64) + inset - margin,
                    y: (height - h) / 2 + inset,
                    width: span * (percent as i64) / 100,
                    height: h - 2 * inset,
                },
            );
            assert(command_views(commands@) =~= before + symbol_commands(
                dyn_config.height,
                i as int,
                cursor as int,
                percent,
            ));
            let b = CairoTextBox {
                text: Self::label(percent),
                height: dyn_config.height,
                color_text: COLOR_TEXT,
                color_box: COLOR_BG_BATTERY,
                alignment: Alignment::Right,
                align: left,
                margin: BLOCK_MARGIN,
            };
            assert(b@ == label_box(dyn_config.height, i as int, cursor as int, percent));
            match b.draw(extents[i], &mut commands) {
                Some(x) => {
                    assert(command_views(commands@) =~= batteries_commands(
                        lines,
                        extents@,
                        dyn_config.height,
                        (i + 1) as nat,
                        align as int,
                    ));
                    cursor = x;
                },
                None => {
                    proof {
                        lemma_batteries_cursor_falls(
                            extents@,
                            dyn_config.height,
                            (i + 1) as nat,
                            count as nat,
                            align as int,
                        );
                    }
                    return None;
                },
            }
            i = i + 1;
        }
        Some(Rendered { commands, cursor })
    }
}

} // verus!
