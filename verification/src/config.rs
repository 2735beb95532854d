//! Fixed configuration: colours, margins, intervals and the module lists.
//!
//! Lengths are whole pixels. Colours are `0xRRGGBB`.

use vstd::prelude::*;
use crate::modules::BarModule;
use crate::modules::BarModuleView;
use crate::modules::basebar::BaseBar;
use crate::modules::clock::Clock;
use crate::modules::herbstluftwm::HerbstluftWM;
use crate::modules::module_views;

verus! {

/// The font of every text, as Pango describes fonts.
pub const FONT: &'static str = "Inconsolata Bold 18";

/// How the clock writes the local time (strftime syntax).
pub const DATE_FORMAT: &'static str = "%a %d.%m.%Y [%H:%M:%S]";

/// Milliseconds between two clock ticks.
pub const INTERVAL: u64 = 500;

/// Milliseconds between two battery polls.
pub const BATTERY_INTERVAL: u64 = 60000;

/// Space between the text of a block and the edge of its box.
pub const BLOCK_MARGIN: u32 = 10;

/// Space between the name of a tag and the edge of its box.
pub const TAG_MARGIN: u32 = 10;

/// Space after each tag box.
pub const TAG_SPACE: u32 = 2;

/// Space between two neighbouring modules of one side.
pub const BLOCK_SPACE: u32 = 0;

pub const STALONETRAY_ENABLED: bool = true;

/// The program that answers `tag_status`.
pub const HERBSTCLIENT: &'static str = "/usr/bin/herbstclient";

/// The hooks of herbstluftwm after which the tags are drawn anew.
pub const TAG_HOOKS: &'static str = "tag_changed|tag_renamed";

/// Side of the monitor focus square, in percent of the strip's height.
pub const MONITOR_FOCUS_SIZE: u32 = 50;

pub const C_RED: u32 = 0xf2777a;

pub const C_GRAY1: u32 = 0x393939;

pub const C_GRAY3: u32 = 0x747369;

pub const C_GRAY4: u32 = 0xa09f93;

pub const C_PURPLE: u32 = 0xcc99cc;

pub const C_BLUE: u32 = 0x6699cc;

pub const C_GREEN: u32 = 0x99cc99;

pub const C_WHITE6: u32 = 0xe8e6df;

pub const COLOR_BG: u32 = C_GRAY1;

pub const COLOR_TEXT: u32 = C_WHITE6;

pub const COLOR_BG_CLOCK: u32 = C_GRAY3;

pub const COLOR_BG_BATTERY: u32 = C_GRAY4;

pub const COLOR_BG_STALONETRAY: u32 = C_GRAY3;

pub const COLOR_EMPTY: u32 = C_GRAY3;

pub const COLOR_NON_EMPTY: u32 = C_PURPLE;

pub const COLOR_THIS_MONITOR_UNFOCUSED: u32 = C_BLUE;

pub const COLOR_THIS_MONITOR_FOCUSED: u32 = C_BLUE;

pub const COLOR_DIFFERENT_MONITOR_UNFOCUSED: u32 = C_GREEN;

pub const COLOR_DIFFERENT_MONITOR_FOCUSED: u32 = C_GREEN;

pub const COLOR_URGENT_WINDOW: u32 = C_RED;

pub const COLOR_MONITOR_FOCUSED: u32 = C_BLUE;

pub const COLOR_MONITOR_UNFOCUSED: u32 = C_WHITE6;

/// The modules that fill the whole strip: they are rendered first.
pub fn modules_global() -> (modules: Vec<BarModule>)
    ensures
        module_views(modules@) == seq![BarModuleView::BaseBar],
{
    let mut modules: Vec<BarModule> = Vec::new();
    modules.push(BarModule::BaseBar(BaseBar {  }));
    assert(module_views(modules@) =~= seq![BarModuleView::BaseBar]);
    modules
}

/// The modules of the left side, from left to right.
pub fn modules_left() -> (modules: Vec<BarModule>)
    ensures
        module_views(modules@) == seq![BarModuleView::HerbstluftWM],
{
    let mut modules: Vec<BarModule> = Vec::new();
    modules.push(BarModule::HerbstluftWM(HerbstluftWM {  }));
    assert(module_views(modules@) =~= seq![BarModuleView::HerbstluftWM]);
    modules
}

/// The modules of the right side, from right to left.
pub fn modules_right() -> (modules: Vec<BarModule>)
    ensures
        module_views(modules@) == seq![BarModuleView::Clock],
{
    let mut modules: Vec<BarModule> = Vec::new();
    modules.push(BarModule::Clock(Clock {  }));
    assert(module_views(modules@) =~= seq![BarModuleView::Clock]);
    modules
}

} // verus!
