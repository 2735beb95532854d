//! The render protocol: how the modules of a snapshot become one frame.
//!
//! Global modules are rendered first, each at cursor 0. Then the left
//! modules, from the left edge to the right, and the right modules, from
//! the right edge to the left, with a gap between neighbours. A module that
//! cannot be rendered draws nothing and takes no place.

use vstd::prelude::*;
use crate::geometry::DynamicConfig;
use crate::geometry::texts;
use crate::modules::BarModule;
use crate::modules::BarModuleView;
use crate::modules::lemma_render_shifts;
use crate::modules::RenderedView;
use crate::textbox::command_views;
use crate::textbox::DrawCommand;
use crate::textbox::DrawCommandView;
use crate::textbox::is_position;
use crate::textbox::TextExtent;

verus! {

/// A module with what was read for it and the extents of its texts.
#[derive(Debug)]
pub struct Prepared {
    pub module: BarModule,
    pub lines: Vec<String>,
    pub extents: Vec<TextExtent>,
}

/// A prepared module as a value.
pub struct PreparedView {
    pub module: BarModuleView,
    pub lines: Seq<Seq<char>>,
    pub extents: Seq<TextExtent>,
}

impl View for Prepared {
    type V = PreparedView;

    open spec fn view(&self) -> PreparedView {
        PreparedView { module: self.module@, lines: texts(self.lines@), extents: self.extents@ }
    }
}

/// The views of a list of prepared modules.
pub open spec fn prepared_views(modules: Seq<Prepared>) -> Seq<PreparedView> {
    modules.map_values(|p: Prepared| p@)
}

/// One frame: what to paint, in order, and where the cursors of the two
/// sides came to stand.
#[derive(Debug)]
pub struct Frame {
    pub commands: Vec<DrawCommand>,
    pub left: i64,
    pub right: i64,
}

/// A frame as a value.
pub struct FrameView {
    pub commands: Seq<DrawCommandView>,
    pub left: int,
    pub right: int,
}

impl View for Frame {
    type V = FrameView;

    open spec fn view(&self) -> FrameView {
        FrameView {
            commands: command_views(self.commands@),
            left: self.left as int,
            right: self.right as int,
        }
    }
}

impl PreparedView {
    /// The module rendered at `at`; nothing where `at` is no position.
    pub open spec fn place(self, dyn_config: DynamicConfig, at: int) -> Option<RenderedView> {
        if is_position(at) {
            self.module.render(dyn_config, at, self.lines, self.extents)
        } else {
            None
        }
    }
}

/// What the first `n` global modules draw: each is rendered at cursor 0,
/// and where its cursor ends is of no account.
pub open spec fn global_commands(
    modules: Seq<PreparedView>,
    dyn_config: DynamicConfig,
    n: nat,
) -> Seq<DrawCommandView>
    decreases n,
{
    if n == 0 {
        seq![]
    } else {
        let before = global_commands(modules, dyn_config, (n - 1) as nat);
        match modules[n - 1].place(dyn_config, 0) {
            Some(r) => before + r.commands,
            None => before,
        }
    }
}

/// What a side has come to after some of its modules.
pub struct Flow {
    /// What was drawn, in order.
    pub commands: Seq<DrawCommandView>,
    /// Where the cursor stands.
    pub cursor: int,
    /// Whether a module was rendered.
    pub placed: bool,
}

/// One side after its first `n` modules. The first module that can be
/// rendered stands at `start`, each later one `gap` after the cursor that
/// the one before it left. A module that cannot be rendered where it would
/// stand changes nothing. `gap` is positive for the left side and negative
/// for the right one.
pub open spec fn flow(
    modules: Seq<PreparedView>,
    dyn_config: DynamicConfig,
    start: int,
    gap: int,
    n: nat,
) -> Flow
    decreases n,
{
    if n == 0 {
        Flow { commands: seq![], cursor: start, placed: false }
    } else {
        let before = flow(modules, dyn_config, start, gap, (n - 1) as nat);
        let at = if before.placed {
            before.cursor + gap
        } else {
            before.cursor
        };
        match modules[n - 1].place(dyn_config, at) {
            Some(r) => Flow { commands: before.commands + r.commands, cursor: r.cursor, placed: true },
            None => before,
        }
    }
}

/// The frame of a snapshot: the global modules, then the left side from
/// cursor 0, then the right side from the strip's width.
pub open spec fn spec_frame(
    dyn_config: DynamicConfig,
    global: Seq<PreparedView>,
    left: Seq<PreparedView>,
    right: Seq<PreparedView>,
    gap: u32,
) -> FrameView {
    let l = flow(left, dyn_config, 0, gap as int, left.len());
    let r = flow(right, dyn_config, dyn_config.width as int, -(gap as int), right.len());
    FrameView {
        commands: global_commands(global, dyn_config, global.len()) + l.commands + r.commands,
        left: l.cursor,
        right: r.cursor,
    }
}

/// The sum of the first `n` of `widths`.
pub open spec fn total(widths: Seq<nat>, n: nat) -> nat
    decreases n,
{
    if n == 0 {
        0
    } else {
        total(widths, (n - 1) as nat) + widths[n - 1]
    }
}

/// Where a side ends whose `n` modules are `sum` wide together: at `start`
/// where it has none, else after the modules and the gaps between them.
/// `gap` and `sum` are negative for the right side.
pub open spec fn flow_end(start: int, gap: int, sum: int, n: nat) -> int {
    if n == 0 {
        start
    } else {
        start + sum + (n - 1) * gap
    }
}

impl PreparedView {
    /// Whether the module moves the cursor by `distance` wherever it is
    /// rendered.
    pub open spec fn advances_by(self, dyn_config: DynamicConfig, distance: int) -> bool {
        forall|at: int|
            is_position(at) && is_position(at + distance) ==> {
                &&& (#[trigger] self.place(dyn_config, at)) is Some
                &&& self.place(dyn_config, at)->0.cursor == at + distance
            }
    }
}

/// A module that can be rendered somewhere moves the cursor by the same
/// distance wherever it is rendered.
pub proof fn lemma_module_advances(module: PreparedView, dyn_config: DynamicConfig, a: int)
    requires
        module.place(dyn_config, a) is Some,
    ensures
        module.advances_by(dyn_config, module.place(dyn_config, a)->0.cursor - a),
{
    let distance = module.place(dyn_config, a)->0.cursor - a;
    assert forall|at: int| is_position(at) && is_position(at + distance) implies {
        &&& (#[trigger] module.place(dyn_config, at)) is Some
        &&& module.place(dyn_config, at)->0.cursor == at + distance
    } by {
        lemma_render_shifts(module.module, dyn_config, module.lines, module.extents, a, at);
    }
}

/// A side without modules leaves the cursor where it started and draws
/// nothing.
pub proof fn lemma_empty_flow(dyn_config: DynamicConfig, start: int, gap: int)
    ensures
        flow(Seq::<PreparedView>::empty(), dyn_config, start, gap, 0).cursor == start,
        flow(Seq::<PreparedView>::empty(), dyn_config, start, gap, 0).commands
            == Seq::<DrawCommandView>::empty(),
{
}

/// The left side ends after its modules and the gaps between them: where
/// module `i` moves the cursor to the right by `widths[i]`, the cursor
/// after `n` modules stands at `start`, plus the widths, plus `n - 1` gaps.
pub proof fn lemma_left_flow(
    modules: Seq<PreparedView>,
    dyn_config: DynamicConfig,
    start: int,
    gap: nat,
    widths: Seq<nat>,
    n: nat,
)
    requires
        n <= modules.len(),
        modules.len() == widths.len(),
        is_position(start),
        is_position(flow_end(start, gap as int, total(widths, n) as int, n)),
        forall|i: int| 0 <= i < n ==> modules[i].advances_by(dyn_config, widths[i] as int),
    ensures
        flow(modules, dyn_config, start, gap as int, n).cursor == flow_end(
            start,
            gap as int,
            total(widths, n) as int,
            n,
        ),
        flow(modules, dyn_config, start, gap as int, n).placed == (n > 0),
    decreases n,
{
    if n > 0 {
        let m = (n - 1) as nat;
        let g = gap as int;
        let w = widths[n - 1] as int;
        let spaces_before: int = if m == 0 {
            0
        } else {
            (m - 1) * g
        };
        let spaces: int = (n - 1) * g;
        assert(spaces_before >= 0 && spaces == spaces_before + (if m == 0 {
            0
        } else {
            g
        })) by (nonlinear_arith)
            requires
                m == n - 1,
                g >= 0,
                spaces == (n - 1) * g,
                spaces_before == (if m == 0 {
                    0
                } else {
                    (m - 1) * g
                }),
        ;
        assert(total(widths, n) == total(widths, m) + w);
        let end_before = flow_end(start, g, total(widths, m) as int, m);
        let end = flow_end(start, g, total(widths, n) as int, n);
        assert(end_before == start + (if m == 0 {
            0
        } else {
            total(widths, m) + spaces_before
        }));
        assert(total(widths, 0) == 0);
        assert(start <= end_before <= end);
        lemma_left_flow(modules, dyn_config, start, gap, widths, m);
        let before = flow(modules, dyn_config, start, g, m);
        let at = if before.placed {
            before.cursor + g
        } else {
            before.cursor
        };
        assert(at + w == end);
        assert(is_position(at));
        assert(modules[n - 1].advances_by(dyn_config, w));
        assert(modules[n - 1].place(dyn_config, at) is Some);
        assert(modules[n - 1].place(dyn_config, at)->0.cursor == end);
    }
}

/// The right side ends before its modules and the gaps between them: where
/// module `i` moves the cursor to the left by `widths[i]`, the cursor
/// after `n` modules stands at `start`, less the widths, less `n - 1` gaps.
pub proof fn lemma_right_flow(
    modules: Seq<PreparedView>,
    dyn_config: DynamicConfig,
    start: int,
    gap: nat,
    widths: Seq<nat>,
    n: nat,
)
    requires
        n <= modules.len(),
        modules.len() == widths.len(),
        is_position(start),
        is_position(flow_end(start, -(gap as int), -(total(widths, n) as int), n)),
        forall|i: int| 0 <= i < n ==> modules[i].advances_by(dyn_config, -(widths[i] as int)),
    ensures
        flow(modules, dyn_config, start, -(gap as int), n).cursor == flow_end(
            start,
            -(gap as int),
            -(total(widths, n) as int),
            n,
        ),
        flow(modules, dyn_config, start, -(gap as int), n).placed == (n > 0),
    decreases n,
{
    if n > 0 {
        let m = (n - 1) as nat;
        let g = -(gap as int);
        let w = -(widths[n - 1] as int);
        let spaces_before: int = if m == 0 {
            0
        } else {
            (m - 1) * g
        };
        let spaces: int = (n - 1) * g;
        assert(spaces_before <= 0 && spaces == spaces_before + (if m == 0 {
            0
        } else {
            g
        })) by (nonlinear_arith)
            requires
                m == n - 1,
                g <= 0,
                spaces == (n - 1) * g,
                spaces_before == (if m == 0 {
                    0
                } else {
                    (m - 1) * g
                }),
        ;
        assert(total(widths, n) == total(widths, m) - w);
        let end_before = flow_end(start, g, -(total(widths, m) as int), m);
        let end = flow_end(start, g, -(total(widths, n) as int), n);
        assert(end_before == start + (if m == 0 {
            0
        } else {
            spaces_before - total(widths, m)
        }));
        assert(total(widths, 0) == 0);
        assert(end <= end_before <= start);
        lemma_right_flow(modules, dyn_config, start, gap, widths, m);
        let before = flow(modules, dyn_config, start, g, m);
        let at = if before.placed {
            before.cursor + g
        } else {
            before.cursor
        };
        assert(at + w == end);
        assert(is_position(at));
        assert(modules[n - 1].advances_by(dyn_config, w));
        assert(modules[n - 1].place(dyn_config, at) is Some);
        assert(modules[n - 1].place(dyn_config, at)->0.cursor == end);
    }
}

/// A side after its first `n` modules depends on those modules alone.
pub proof fn lemma_flow_prefix(
    a: Seq<PreparedView>,
    b: Seq<PreparedView>,
    dyn_config: DynamicConfig,
    start: int,
    gap: int,
    n: nat,
)
    requires
        n <= a.len(),
        n <= b.len(),
        forall|i: int| 0 <= i < n ==> a[i] == b[i],
    ensures
        flow(a, dyn_config, start, gap, n) == flow(b, dyn_config, start, gap, n),
    decreases n,
{
    if n > 0 {
        lemma_flow_prefix(a, b, dyn_config, start, gap, (n - 1) as nat);
    }
}

/// A module that cannot be rendered anywhere takes no place: the side is
/// what it is without that module.
pub proof fn lemma_skipped_module_takes_no_place(
    modules: Seq<PreparedView>,
    dyn_config: DynamicConfig,
    start: int,
    gap: int,
    i: int,
    n: nat,
)
    requires
        0 <= i < n <= modules.len(),
        forall|at: int| modules[i].place(dyn_config, at) is None,
    ensures
        flow(modules, dyn_config, start, gap, n) == flow(
            modules.remove(i),
            dyn_config,
            start,
            gap,
            (n - 1) as nat,
        ),
    decreases n,
{
    let without = modules.remove(i);
    if n == i + 1 {
        let before = flow(modules, dyn_config, start, gap, i as nat);
        let at = if before.placed {
            before.cursor + gap
        } else {
            before.cursor
        };
        assert(modules[i].place(dyn_config, at) is None);
        lemma_flow_prefix(modules, without, dyn_config, start, gap, i as nat);
    } else {
        lemma_skipped_module_takes_no_place(modules, dyn_config, start, gap, i, (n - 1) as nat);
        assert(without[n - 2] == modules[n - 1]);
    }
}

/// Renders the global modules: appends what they draw to `commands`.
fn render_global(
    dyn_config: DynamicConfig,
    modules: &Vec<Prepared>,
    commands: &mut Vec<DrawCommand>,
)
    ensures
        command_views(final(commands)@) == command_views(old(commands)@) + global_commands(
            prepared_views(modules@),
            dyn_config,
            modules.len() as nat,
        ),
{
    let ghost views = prepared_views(modules@);
    let mut i: usize = 0;
    assert(command_views(commands@) =~= command_views(old(commands)@) + global_commands(
        views,
        dyn_config,
        0,
    ));
    while i < modules.len()
        invariant
            i <= modules.len(),
            views == prepared_views(modules@),
            command_views(commands@) == command_views(old(commands)@) + global_commands(
                views,
                dyn_config,
                i as nat,
            ),
        decreases modules.len() - i,
    {
        let p = &modules[i];
        assert(views[i as int] == modules[i as int]@);
        let ghost before = commands@;
        match p.module.render(dyn_config, 0, &p.lines, &p.extents) {
            Some(r) => {
                let mut drawn = r.commands;
                commands.append(&mut drawn);
                assert(command_views(commands@) =~= command_views(before) + r@.commands);
            },
            None => {},
        }
        assert(command_views(commands@) =~= command_views(old(commands)@) + global_commands(
            views,
            dyn_config,
            (i + 1) as nat,
        ));
        i = i + 1;
    }
}

/// Renders one side: appends what its modules draw to `commands` and
/// returns the cursor after the last of them.
fn render_flow(
    dyn_config: DynamicConfig,
    modules: &Vec<Prepared>,
    start: i64,
    gap: i64,
    commands: &mut Vec<DrawCommand>,
) -> (cursor: i64)
    ensures
        cursor == flow(
            prepared_views(modules@),
            dyn_config,
            start as int,
            gap as int,
            modules.len() as nat,
        ).cursor,
        command_views(final(commands)@) == command_views(old(commands)@) + flow(
            prepared_views(modules@),
            dyn_config,
            start as int,
            gap as int,
            modules.len() as nat,
        ).commands,
{
    let ghost views = prepared_views(modules@);
    let mut cursor: i64 = start;
    let mut placed: bool = false;
    let mut i: usize = 0;
    assert(command_views(commands@) =~= command_views(old(commands)@) + flow(
        views,
        dyn_config,
        start as int,
        gap as int,
        0,
    ).commands);
    while i < modules.len()
        invariant
            i <= modules.len(),
            views == prepared_views(modules@),
            cursor == flow(views, dyn_config, start as int, gap as int, i as nat).cursor,
            placed == flow(views, dyn_config, start as int, gap as int, i as nat).placed,
            command_views(commands@) == command_views(old(commands)@) + flow(
                views,
                dyn_config,
                start as int,
                gap as int,
                i as nat,
            ).commands,
        decreases modules.len() - i,
    {
        let p = &modules[i];
        assert(views[i as int] == modules[i as int]@);
        let ghost before = commands@;
        let at = if placed {
            cursor.checked_add(gap)
        } else {
            Some(cursor)
        };
        let rendered = match at {
            Some(x) => p.module.render(dyn_config, x, &p.lines, &p.extents),
            None => None,
        };
        match rendered {
            Some(r) => {
                let mut drawn = r.commands;
                commands.append(&mut drawn);
                assert(command_views(commands@) =~= command_views(before) + r@.commands);
                cursor = r.cursor;
                placed = true;
            },
            None => {},
        }
        assert(command_views(commands@) =~= command_views(old(commands)@) + flow(
            views,
            dyn_config,
            start as int,
            gap as int,
            (i + 1) as nat,
        ).commands);
        i = i + 1;
    }
    cursor
}

/// Renders one frame from the modules of a snapshot, each with what was
/// read for it. `gap` is the space between two neighbours of one side.
pub fn render_frame(
    dyn_config: DynamicConfig,
    global: &Vec<Prepared>,
    left: &Vec<Prepared>,
    right: &Vec<Prepared>,
    gap: u32,
) -> (frame: Frame)
    ensures
        frame@ == spec_frame(
            dyn_config,
            prepared_views(global@),
            prepared_views(left@),
            prepared_views(right@),
            gap,
        ),
{
    let mut commands: Vec<DrawCommand> = Vec::new();
    render_global(dyn_config, global, &mut commands);
    let l = render_flow(dyn_config, left, 0, gap as i64, &mut commands);
    let r = render_flow(dyn_config, right, dyn_config.width as i64, -(gap as i64), &mut commands);
    let frame = Frame { commands, left: l, right: r };
    assert(frame@.commands =~= spec_frame(
        dyn_config,
        prepared_views(global@),
        prepared_views(left@),
        prepared_views(right@),
        gap,
    ).commands);
    frame
}

} // verus!
