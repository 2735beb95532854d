//! The tags of herbstluftwm: one box per tag, coloured by the tag's state.

use vstd::prelude::*;
use vstd::string::StrSliceExecFns;
use vstd::string::StringExecFns;
use crate::config::COLOR_DIFFERENT_MONITOR_FOCUSED;
use crate::config::COLOR_DIFFERENT_MONITOR_UNFOCUSED;
use crate::config::COLOR_EMPTY;
use crate::config::COLOR_MONITOR_FOCUSED;
use crate::config::COLOR_MONITOR_UNFOCUSED;
use crate::config::COLOR_NON_EMPTY;
use crate::config::COLOR_TEXT;
use crate::config::COLOR_THIS_MONITOR_FOCUSED;
use crate::config::COLOR_THIS_MONITOR_UNFOCUSED;
use crate::config::COLOR_URGENT_WINDOW;
use crate::config::MONITOR_FOCUS_SIZE;
use crate::config::TAG_MARGIN;
use crate::config::TAG_SPACE;
use crate::geometry::DynamicConfig;
use crate::modules::Rendered;
use crate::modules::RenderedView;
use crate::textbox::Alignment;
use crate::textbox::CairoTextBox;
use crate::textbox::CairoTextBoxView;
use crate::textbox::command_views;
use crate::textbox::DrawCommand;
use crate::textbox::DrawCommandView;
use crate::textbox::is_position;
use crate::textbox::TextExtent;
use crate::utils::cairo_source_rgb_hex;
use crate::utils::spec_rgb_hex;

verus! {

/// Shows the tags of one monitor, and whether that monitor has the focus.
#[derive(Clone, Copy, Debug, PartialEq, Eq, Structural)]
pub struct HerbstluftWM {}

/// What herbstluftwm reports of one tag.
#[derive(Clone, Copy, Debug, PartialEq, Eq, Structural)]
pub enum TagState {
    Empty,
    NonEmpty,
    ThisMonitorUnfocused,
    ThisMonitorFocused,
    DifferentMonitorUnfocused,
    DifferentMonitorFocused,
    UrgentWindow,
}

/// A tag as `tag_status` lists it: its state and its name.
#[derive(Debug)]
pub struct Tag {
    pub state: TagState,
    pub name: String,
}

/// A tag with its name as a sequence of characters.
pub struct TagView {
    pub state: TagState,
    pub name: Seq<char>,
}

impl View for Tag {
    type V = TagView;

    open spec fn view(&self) -> TagView {
        TagView { state: self.state, name: self.name@ }
    }
}

/// The state that a symbol of `tag_status` stands for.
pub open spec fn spec_from_symbol(sym: char) -> Option<TagState> {
    if sym == '.' {
        Some(TagState::Empty)
    } else if sym == ':' {
        Some(TagState::NonEmpty)
    } else if sym == '+' {
        Some(TagState::ThisMonitorUnfocused)
    } else if sym == '#' {
        Some(TagState::ThisMonitorFocused)
    } else if sym == '-' {
        Some(TagState::DifferentMonitorUnfocused)
    } else if sym == '%' {
        Some(TagState::DifferentMonitorFocused)
    } else if sym == '!' {
        Some(TagState::UrgentWindow)
    } else {
        None
    }
}

/// The colour of a tag's box.
pub open spec fn spec_color(state: TagState) -> u32 {
    match state {
        TagState::Empty => COLOR_EMPTY,
        TagState::NonEmpty => COLOR_NON_EMPTY,
        TagState::ThisMonitorUnfocused => COLOR_THIS_MONITOR_UNFOCUSED,
        TagState::ThisMonitorFocused => COLOR_THIS_MONITOR_FOCUSED,
        TagState::DifferentMonitorUnfocused => COLOR_DIFFERENT_MONITOR_UNFOCUSED,
        TagState::DifferentMonitorFocused => COLOR_DIFFERENT_MONITOR_FOCUSED,
        TagState::UrgentWindow => COLOR_URGENT_WINDOW,
    }
}

/// The tag that one entry of `tag_status` describes: a state symbol, then
/// the name. An empty entry and one with an unknown symbol describe none.
pub open spec fn spec_tag(entry: Seq<char>) -> Option<TagView> {
    if entry.len() == 0 {
        None
    } else {
        match spec_from_symbol(entry[0]) {
            Some(state) => Some(TagView { state, name: entry.subrange(1, entry.len() as int) }),
            None => None,
        }
    }
}

/// How many characters stand before the first tab of `s`; its length where
/// it holds none.
pub open spec fn first_tab(s: Seq<char>) -> nat
    decreases s.len(),
{
    if s.len() == 0 || s[0] == '\t' {
        0
    } else {
        1 + first_tab(s.drop_first())
    }
}

/// The entries of a `tag_status` line: the pieces between its tabs, in
/// order. A line without a tab is one entry, the empty line too.
pub open spec fn split_entries(s: Seq<char>) -> Seq<Seq<char>>
    decreases s.len(),
{
    let k = first_tab(s) as int;
    if k >= s.len() {
        seq![s]
    } else {
        seq![s.subrange(0, k)] + split_entries(s.subrange(k + 1, s.len() as int))
    }
}

/// The tags that a list of entries describes, in the order of the entries.
/// An entry that describes no tag is left out.
pub open spec fn spec_tags(entries: Seq<Seq<char>>) -> Seq<TagView>
    decreases entries.len(),
{
    if entries.len() == 0 {
        seq![]
    } else {
        let before = spec_tags(entries.drop_last());
        match spec_tag(entries.last()) {
            Some(tag) => before.push(tag),
            None => before,
        }
    }
}

/// The views of a list of tags.
pub open spec fn tag_views(tags: Seq<Tag>) -> Seq<TagView> {
    tags.map_values(|t: Tag| t@)
}

/// Where no tab stands before position `k` of `s`, the first tab is at `k`
/// or later; where a tab stands at `k`, it is the first.
pub proof fn lemma_first_tab(s: Seq<char>, k: int)
    requires
        0 <= k <= s.len(),
        forall|i: int| 0 <= i < k ==> s[i] != '\t',
    ensures
        first_tab(s) >= k,
        first_tab(s) <= s.len(),
        k < s.len() && s[k] == '\t' ==> first_tab(s) == k,
    decreases k,
{
    if k == 0 {
        lemma_first_tab_bound(s);
    } else {
        let rest = s.drop_first();
        assert forall|i: int| 0 <= i < k - 1 implies rest[i] != '\t' by {
            assert(rest[i] == s[i + 1]);
        }
        lemma_first_tab(rest, k - 1);
    }
}

/// The first tab never lies beyond the end.
pub proof fn lemma_first_tab_bound(s: Seq<char>)
    ensures
        first_tab(s) <= s.len(),
    decreases s.len(),
{
    if s.len() != 0 && s[0] != '\t' {
        lemma_first_tab_bound(s.drop_first());
    }
}

/// The tags of two lists of entries, one after the other, are the tags of
/// the first followed by the tags of the second.
pub proof fn lemma_tags_concat(a: Seq<Seq<char>>, b: Seq<Seq<char>>)
    ensures
        spec_tags(a + b) == spec_tags(a) + spec_tags(b),
    decreases b.len(),
{
    if b.len() == 0 {
        assert(a + b =~= a);
        assert(spec_tags(a) + spec_tags(b) =~= spec_tags(a));
    } else {
        assert((a + b).drop_last() =~= a + b.drop_last());
        assert((a + b).last() == b.last());
        lemma_tags_concat(a, b.drop_last());
        match spec_tag(b.last()) {
            Some(tag) => {
                assert((spec_tags(a) + spec_tags(b.drop_last())).push(tag) =~= spec_tags(a)
                    + spec_tags(b.drop_last()).push(tag));
            },
            None => {},
        }
    }
}

/// An entry that describes no tag (an unknown symbol, or nothing at all)
/// changes nothing: the tags are those of the list without it.
pub proof fn lemma_malformed_entry_dropped(entries: Seq<Seq<char>>, i: int)
    requires
        0 <= i < entries.len(),
        spec_tag(entries[i]) is None,
    ensures
        spec_tags(entries) == spec_tags(entries.remove(i)),
{
    let before = entries.subrange(0, i);
    let one = seq![entries[i]];
    let after = entries.subrange(i + 1, entries.len() as int);
    assert(entries =~= before + one + after);
    assert(entries.remove(i) =~= before + after);
    lemma_tags_concat(before + one, after);
    lemma_tags_concat(before, one);
    lemma_tags_concat(before, after);
    assert(one.drop_last() =~= Seq::<Seq<char>>::empty());
    assert(one.last() == entries[i]);
    assert(spec_tags(one.drop_last()) =~= Seq::<TagView>::empty());
    assert(spec_tags(one) =~= Seq::<TagView>::empty());
    assert(spec_tags(before) + spec_tags(one) =~= spec_tags(before));
}

/// Whether one of the tags is the focused tag of a focused monitor.
pub open spec fn monitor_focused(tags: Seq<TagView>) -> bool {
    exists|i: int| 0 <= i < tags.len() && (#[trigger] tags[i]).state == TagState::ThisMonitorFocused
}

/// The colour of the monitor focus square.
pub open spec fn focus_color(tags: Seq<TagView>) -> u32 {
    if monitor_focused(tags) {
        COLOR_MONITOR_FOCUSED
    } else {
        COLOR_MONITOR_UNFOCUSED
    }
}

/// The space around the monitor focus square, on each of its sides.
pub open spec fn focus_margin(height: u32) -> int {
    (height - height * MONITOR_FOCUS_SIZE / 100) / 2
}

/// The monitor focus square: centred in a cell as wide as the strip is
/// high, which starts at `align`.
pub open spec fn focus_square(height: u32, align: int, color: u32) -> DrawCommandView {
    DrawCommandView::Rectangle {
        color: spec_rgb_hex(color),
        x: focus_margin(height) + align,
        y: focus_margin(height),
        width: height - 2 * focus_margin(height),
        height: height - 2 * focus_margin(height),
    }
}

/// How far one tag moves the cursor: its box and the space after it.
pub open spec fn tag_advance(extent: TextExtent) -> int {
    extent.width + 2 * TAG_MARGIN + TAG_SPACE
}

/// Where the cursor stands after the first `n` tags, the first of which
/// starts at `start`.
pub open spec fn tags_cursor(extents: Seq<TextExtent>, n: nat, start: int) -> int
    decreases n,
{
    if n == 0 {
        start
    } else {
        tags_cursor(extents, (n - 1) as nat, start) + tag_advance(extents[n - 1])
    }
}

/// The box of a tag whose left edge is at `at`.
pub open spec fn tag_box(tag: TagView, height: u32, at: int) -> CairoTextBoxView {
    CairoTextBoxView {
        text: tag.name,
        height,
        color_text: COLOR_TEXT,
        color_box: spec_color(tag.state),
        alignment: Alignment::Left,
        align: at,
        margin: TAG_MARGIN,
    }
}

/// The commands of the first `n` tags, from left to right.
pub open spec fn tags_commands(
    tags: Seq<TagView>,
    extents: Seq<TextExtent>,
    height: u32,
    n: nat,
    start: int,
) -> Seq<DrawCommandView>
    decreases n,
{
    if n == 0 {
        seq![]
    } else {
        tags_commands(tags, extents, height, (n - 1) as nat, start) + tag_box(
            tags[n - 1],
            height,
            tags_cursor(extents, (n - 1) as nat, start),
        ).commands(extents[n - 1])
    }
}

/// The cursor moves to the right from each tag to the next: the boxes
/// stand side by side in the order of the tags.
pub proof fn lemma_tags_cursor_grows(extents: Seq<TextExtent>, k: nat, n: nat, start: int)
    requires
        k <= n,
    ensures
        tags_cursor(extents, k, start) <= tags_cursor(extents, n, start),
        k < n ==> tags_cursor(extents, k, start) < tags_cursor(extents, n, start),
    decreases n - k,
{
    if k < n {
        lemma_tags_cursor_grows(extents, k + 1, n, start);
    }
}

/// The tags move the cursor by the same distance wherever they start.
pub proof fn lemma_tags_cursor_shift(extents: Seq<TextExtent>, n: nat, start: int)
    ensures
        tags_cursor(extents, n, start) == start + tags_cursor(extents, n, 0),
    decreases n,
{
    if n > 0 {
        lemma_tags_cursor_shift(extents, (n - 1) as nat, start);
    }
}

impl HerbstluftWM {
    /// The monitor focus square in a cell of its own, then one box for each
    /// tag. There is a rendering where each tag has its extent and the
    /// cursor after the last tag is a position.
    pub open spec fn spec_render(
        dyn_config: DynamicConfig,
        align: int,
        tags: Seq<TagView>,
        extents: Seq<TextExtent>,
    ) -> Option<RenderedView> {
        let first = align + dyn_config.height;
        if tags.len() == extents.len() && is_position(tags_cursor(extents, tags.len(), first)) {
            Some(
                RenderedView {
                    commands: seq![focus_square(dyn_config.height, align, focus_color(tags))]
                        + tags_commands(tags, extents, dyn_config.height, tags.len(), first),
                    cursor: tags_cursor(extents, tags.len(), first),
                },
            )
        } else {
            None
        }
    }

    /// Whether one of `tags` is the focused tag of a focused monitor.
    pub fn has_focus(tags: &Vec<Tag>) -> (focused: bool)
        ensures
            focused == monitor_focused(tag_views(tags@)),
    {
        let mut i: usize = 0;
        while i < tags.len()
            invariant
                i <= tags.len(),
                forall|j: int| 0 <= j < i ==> tags[j].state != TagState::ThisMonitorFocused,
            decreases tags.len() - i,
        {
            if tags[i].state == TagState::ThisMonitorFocused {
                assert(tag_views(tags@)[i as int].state == TagState::ThisMonitorFocused);
                return true;
            }
            i = i + 1;
        }
        assert forall|j: int| 0 <= j < tags.len() implies (#[trigger] tag_views(
            tags@,
        )[j]).state != TagState::ThisMonitorFocused by {
            assert(tag_views(tags@)[j] == tags[j]@);
        }
        false
    }

    /// Renders the tags, each with the extent of its name.
    pub fn render(
        &self,
        dyn_config: DynamicConfig,
        align: i64,
        tags: &Vec<Tag>,
        extents: &Vec<TextExtent>,
    ) -> (out: Option<Rendered>)
        ensures
            match out {
                Some(r) => Self::spec_render(dyn_config, align as int, tag_views(tags@), extents@)
                    == Some(r@),
                None => Self::spec_render(dyn_config, align as int, tag_views(tags@), extents@)
                    is None,
            },
    {
        let ghost views = tag_views(tags@);
        let ghost first = align + dyn_config.height;
        if tags.len() != extents.len() {
            return None;
        }
        let count: usize = tags.len();
        let height: i64 = dyn_config.height as i64;
        let mut left_border: i64 = match align.checked_add(height) {
            Some(x) => x,
            None => {
                proof {
                    lemma_tags_cursor_grows(extents@, 0, count as nat, first);
                }
                return None;
            },
        };
        let focus = if Self::has_focus(tags) {
            COLOR_MONITOR_FOCUSED
        } else {
            COLOR_MONITOR_UNFOCUSED
        };
        let margin: i64 = (height - height * (MONITOR_FOCUS_SIZE as i64) / 100) / 2;
        let mut commands: Vec<DrawCommand> = Vec::new();
        commands.push(
            DrawCommand::Rectangle {
                color: cairo_source_rgb_hex(focus),
                x: margin + align,
                y: margin,
                width: height - 2 * margin,
                height: height - 2 * margin,
            },
        );
        assert(command_views(commands@) =~= seq![
            focus_square(dyn_config.height, align as int, focus_color(views)),
        ]);
        let mut i: usize = 0;
        while i < count
            invariant
                i <= count,
                count == tags.len(),
                count == extents.len(),
                views == tag_views(tags@),
                first == align + dyn_config.height,
                left_border == tags_cursor(extents@, i as nat, first),
                command_views(commands@) == seq![
                    focus_square(dyn_config.height, align as int, focus_color(views)),
                ] + tags_commands(views, extents@, dyn_config.height, i as nat, first),
            decreases count - i,
        {
            let b = CairoTextBox {
                text: tags[i].name.clone(),
                height: dyn_config.height,
                color_text: COLOR_TEXT,
                color_box: tags[i].state.color(),
                alignment: Alignment::Left,
                align: left_border,
                margin: TAG_MARGIN,
            };
            assert(views[i as int] == tags[i as int]@);
            assert(b@ == tag_box(views[i as int], dyn_config.height, left_border as int));
            let ghost before = commands@;
            let next = match b.draw(extents[i], &mut commands) {
                Some(new_left) => new_left.checked_add(TAG_SPACE as i64),
                None => None,
            };
            match next {
                Some(x) => {
                    assert(command_views(commands@) =~= seq![
                        focus_square(dyn_config.height, align as int, focus_color(views)),
                    ] + tags_commands(views, extents@, dyn_config.height, (i + 1) as nat, first));
                    left_border = x;
                },
                None => {
                    proof {
                        lemma_tags_cursor_grows(extents@, (i + 1) as nat, count as nat, first);
                    }
                    return None;
                },
            }
            i = i + 1;
        }
        Some(Rendered { commands, cursor: left_border })
    }
}

impl TagState {
    /// The state that a symbol of `tag_status` stands for, if any.
    pub fn from_symbol(sym: char) -> (state: Option<TagState>)
        ensures
            state == spec_from_symbol(sym),
    {
        match sym {
            '.' => Some(TagState::Empty),
            ':' => Some(TagState::NonEmpty),
            '+' => Some(TagState::ThisMonitorUnfocused),
            '#' => Some(TagState::ThisMonitorFocused),
            '-' => Some(TagState::DifferentMonitorUnfocused),
            '%' => Some(TagState::DifferentMonitorFocused),
            '!' => Some(TagState::UrgentWindow),
            _ => None,
        }
    }

    /// The colour of the box of a tag in this state, as `0xRRGGBB`.
    pub fn color(&self) -> (color: u32)
        ensures
            color == spec_color(*self),
    {
        match self {
            TagState::Empty => COLOR_EMPTY,
            TagState::NonEmpty => COLOR_NON_EMPTY,
            TagState::ThisMonitorUnfocused => COLOR_THIS_MONITOR_UNFOCUSED,
            TagState::ThisMonitorFocused => COLOR_THIS_MONITOR_FOCUSED,
            TagState::DifferentMonitorUnfocused => COLOR_DIFFERENT_MONITOR_UNFOCUSED,
            TagState::DifferentMonitorFocused => COLOR_DIFFERENT_MONITOR_FOCUSED,
            TagState::UrgentWindow => COLOR_URGENT_WINDOW,
        }
    }
}

impl Tag {
    /// The tag that one entry of `tag_status` describes, if any.
    pub fn from_str(s: &str) -> (tag: Option<Tag>)
        ensures
            match tag {
                Some(t) => spec_tag(s@) == Some(t@),
                None => spec_tag(s@) is None,
            },
    {
        let len: usize = s.unicode_len();
        if len == 0 {
            return None;
        }
        match TagState::from_symbol(s.get_char(0)) {
            Some(state) => Some(Tag { state, name: String::from_str(s.substring_char(1, len)) }),
            None => None,
        }
    }

    /// The tags that one answer of `tag_status` lists.
    pub fn read_hlwm_tags(status: &str) -> (tags: Vec<Tag>)
        ensures
            tag_views(tags@) == spec_tags(split_entries(status@)),
    {
        let len: usize = status.unicode_len();
        let mut tags: Vec<Tag> = Vec::new();
        let ghost mut done: Seq<Seq<char>> = Seq::empty();
        let mut start: usize = 0;
        let mut i: usize = 0;
        proof {
            assert(status@.subrange(0, len as int) =~= status@);
            assert(done + split_entries(status@) =~= split_entries(status@));
            assert(tag_views(tags@) =~= spec_tags(done));
        }
        while i < len
            invariant
                len == status@.len(),
                start <= i <= len,
                forall|j: int| start <= j < i ==> status@[j] != '\t',
                split_entries(status@) == done + split_entries(
                    status@.subrange(start as int, len as int),
                ),
                tag_views(tags@) == spec_tags(done),
            decreases len - i,
        {
            if status.get_char(i) == '\t' {
                let entry = status.substring_char(start, i);
                proof {
                    let rest = status@.subrange(start as int, len as int);
                    assert forall|j: int| 0 <= j < i - start implies rest[j] != '\t' by {
                        assert(rest[j] == status@[start + j]);
                    }
                    lemma_first_tab(rest, i - start);
                    assert(rest.subrange(0, i - start) =~= entry@);
                    assert(rest.subrange(i - start + 1, rest.len() as int) =~= status@.subrange(
                        i + 1,
                        len as int,
                    ));
                    assert(done + (seq![entry@] + split_entries(status@.subrange(i + 1, len as int)))
                        =~= done.push(entry@) + split_entries(status@.subrange(i + 1, len as int)));
                }
                Tag::push_entry(&mut tags, entry, Ghost(done));
                proof {
                    done = done.push(entry@);
                }
                start = i + 1;
            }
            i = i + 1;
        }
        let entry = status.substring_char(start, len);
        proof {
            let rest = status@.subrange(start as int, len as int);
            assert forall|j: int| 0 <= j < len - start implies rest[j] != '\t' by {
                assert(rest[j] == status@[start + j]);
            }
            lemma_first_tab(rest, len - start);
            assert(rest =~= entry@);
            assert(done + seq![entry@] =~= done.push(entry@));
        }
        Tag::push_entry(&mut tags, entry, Ghost(done));
        tags
    }

    /// Appends the tag of `entry`, where it describes one.
    fn push_entry(tags: &mut Vec<Tag>, entry: &str, Ghost(done): Ghost<Seq<Seq<char>>>)
        requires
            tag_views(old(tags)@) == spec_tags(done),
        ensures
            tag_views(final(tags)@) == spec_tags(done.push(entry@)),
    {
        assert(done.push(entry@).drop_last() =~= done);
        match Tag::from_str(entry) {
            Some(tag) => {
                tags.push(tag);
                assert(tag_views(tags@) =~= tag_views(old(tags)@).push(tag@));
            },
            None => {},
        }
    }
}

} // verus!
