//! The state that the producers and the draw loop share, and the protocol
//! by which a redraw is asked for and taken up.
//!
//! One lock guards a `BarState`. Every function here is one critical
//! section: whoever holds the lock calls it and lets the lock go. What the
//! threads do to the state is therefore a sequence of operations, and the
//! laws at the end of this file hold of every such sequence.

use vstd::prelude::*;
use crate::generator::Generator;
use crate::geometry::DynamicConfig;
use crate::modules::BarModule;
use crate::modules::BarModuleView;
use crate::modules::module_views;

verus! {

/// The shared state of a strip.
#[derive(Debug)]
pub struct BarState {
    redraw_signaled: bool,
    bar_closed: bool,
    dyn_config: DynamicConfig,
    modules_left: Vec<BarModule>,
    modules_right: Vec<BarModule>,
    modules_global: Vec<BarModule>,
}

/// The shared state as a value.
pub struct BarStateView {
    /// A redraw has been asked for and not yet taken up.
    pub redraw_signaled: bool,
    /// The strip has been closed. It is never opened again.
    pub bar_closed: bool,
    pub dyn_config: DynamicConfig,
    pub modules_left: Seq<BarModuleView>,
    pub modules_right: Seq<BarModuleView>,
    pub modules_global: Seq<BarModuleView>,
}

/// What a draw pass works on: the geometry and the modules as they were
/// when the request was taken up.
#[derive(Debug)]
pub struct FrameSnapshot {
    pub dyn_config: DynamicConfig,
    pub modules_left: Vec<BarModule>,
    pub modules_right: Vec<BarModule>,
    pub modules_global: Vec<BarModule>,
}

/// A snapshot as a value.
pub struct FrameSnapshotView {
    pub dyn_config: DynamicConfig,
    pub modules_left: Seq<BarModuleView>,
    pub modules_right: Seq<BarModuleView>,
    pub modules_global: Seq<BarModuleView>,
}

/// What the draw loop does after it has looked at the state.
#[derive(Debug)]
pub enum DrawStep {
    /// No redraw is due: sleep until a producer wakes the loop, then look
    /// again.
    Wait,
    /// A redraw is due: render this snapshot, then look again.
    Render(FrameSnapshot),
    /// The strip is closed: leave the loop.
    Exit,
}

/// A step of the draw loop as a value.
pub enum DrawStepView {
    Wait,
    Render(FrameSnapshotView),
    Exit,
}

/// One critical section on the shared state.
pub enum Operation {
    /// A producer asks for a redraw.
    Request,
    /// The draw loop looks at the state.
    Poll,
    /// The strip is closed.
    Close,
    /// The tray reports a width.
    Resize(u32),
}

impl View for BarState {
    type V = BarStateView;

    closed spec fn view(&self) -> BarStateView {
        BarStateView {
            redraw_signaled: self.redraw_signaled,
            bar_closed: self.bar_closed,
            dyn_config: self.dyn_config,
            modules_left: module_views(self.modules_left@),
            modules_right: module_views(self.modules_right@),
            modules_global: module_views(self.modules_global@),
        }
    }
}

impl View for FrameSnapshot {
    type V = FrameSnapshotView;

    open spec fn view(&self) -> FrameSnapshotView {
        FrameSnapshotView {
            dyn_config: self.dyn_config,
            modules_left: module_views(self.modules_left@),
            modules_right: module_views(self.modules_right@),
            modules_global: module_views(self.modules_global@),
        }
    }
}

impl View for DrawStep {
    type V = DrawStepView;

    open spec fn view(&self) -> DrawStepView {
        match *self {
            DrawStep::Wait => DrawStepView::Wait,
            DrawStep::Render(snapshot) => DrawStepView::Render(snapshot@),
            DrawStep::Exit => DrawStepView::Exit,
        }
    }
}

impl BarStateView {
    /// The state after a producer has asked for a redraw: a redraw is
    /// pending, whether or not one was before.
    pub open spec fn request(self) -> BarStateView {
        BarStateView { redraw_signaled: true, ..self }
    }

    /// The state after the strip was closed.
    pub open spec fn close(self) -> BarStateView {
        BarStateView { bar_closed: true, ..self }
    }

    /// The state after the tray has reported `width`: the width is new,
    /// every other field of the geometry is as it was.
    pub open spec fn resize(self, width: u32) -> BarStateView {
        BarStateView { dyn_config: DynamicConfig { width, ..self.dyn_config }, ..self }
    }

    /// Geometry and modules as they are now.
    pub open spec fn snapshot(self) -> FrameSnapshotView {
        FrameSnapshotView {
            dyn_config: self.dyn_config,
            modules_left: self.modules_left,
            modules_right: self.modules_right,
            modules_global: self.modules_global,
        }
    }

    /// Whether the draw loop, looking now, finds a redraw to do.
    pub open spec fn redraw_due(self) -> bool {
        !self.bar_closed && self.redraw_signaled
    }

    /// What the draw loop does when it looks at this state. The closed flag
    /// is looked at first.
    pub open spec fn decision(self) -> DrawStepView {
        if self.bar_closed {
            DrawStepView::Exit
        } else if self.redraw_signaled {
            DrawStepView::Render(self.snapshot())
        } else {
            DrawStepView::Wait
        }
    }

    /// The state after the draw loop has looked at it: a request that it
    /// takes up is pending no more, nothing else changes.
    pub open spec fn poll(self) -> BarStateView {
        if self.redraw_due() {
            BarStateView { redraw_signaled: false, ..self }
        } else {
            self
        }
    }

    /// The state after one operation.
    pub open spec fn step(self, op: Operation) -> BarStateView {
        match op {
            Operation::Request => self.request(),
            Operation::Poll => self.poll(),
            Operation::Close => self.close(),
            Operation::Resize(width) => self.resize(width),
        }
    }

    /// The state after a sequence of operations, the first first.
    pub open spec fn run(self, ops: Seq<Operation>) -> BarStateView
        decreases ops.len(),
    {
        if ops.len() == 0 {
            self
        } else {
            self.run(ops.drop_last()).step(ops.last())
        }
    }

    /// How many draw passes a sequence of operations leads to: the number
    /// of its polls that find a redraw to do.
    pub open spec fn passes(self, ops: Seq<Operation>) -> nat
        decreases ops.len(),
    {
        if ops.len() == 0 {
            0
        } else {
            let before = self.passes(ops.drop_last());
            if ops.last() is Poll && self.run(ops.drop_last()).redraw_due() {
                before + 1
            } else {
                before
            }
        }
    }
}

/// How many of the operations ask for a redraw.
pub open spec fn requests(ops: Seq<Operation>) -> nat
    decreases ops.len(),
{
    if ops.len() == 0 {
        0
    } else if ops.last() is Request {
        requests(ops.drop_last()) + 1
    } else {
        requests(ops.drop_last())
    }
}

impl BarState {
    /// A running strip for which no redraw is pending.
    pub fn new(
        dyn_config: DynamicConfig,
        modules_left: Vec<BarModule>,
        modules_right: Vec<BarModule>,
        modules_global: Vec<BarModule>,
    ) -> (state: BarState)
        ensures
            state@ == (BarStateView {
                redraw_signaled: false,
                bar_closed: false,
                dyn_config,
                modules_left: module_views(modules_left@),
                modules_right: module_views(modules_right@),
                modules_global: module_views(modules_global@),
            }),
    {
        BarState {
            redraw_signaled: false,
            bar_closed: false,
            dyn_config,
            modules_left,
            modules_right,
            modules_global,
        }
    }

    /// Whether a redraw is pending.
    pub fn redraw_signaled(&self) -> (pending: bool)
        ensures
            pending == self@.redraw_signaled,
    {
        self.redraw_signaled
    }

    /// Whether the strip has been closed.
    pub fn bar_closed(&self) -> (closed: bool)
        ensures
            closed == self@.bar_closed,
    {
        self.bar_closed
    }

    /// The geometry as it is now.
    pub fn dyn_config(&self) -> (dyn_config: DynamicConfig)
        ensures
            dyn_config == self@.dyn_config,
    {
        self.dyn_config
    }

    /// The event generators of the modules: of the global ones, then the
    /// left ones, then the right ones.
    pub fn event_generators(&self) -> (generators: Vec<Generator>)
        ensures
            generators@ == (self@.modules_global + self@.modules_left + self@.modules_right).map_values(
                |m: BarModuleView| m.event_generator(),
            ),
    {
        let mut generators: Vec<Generator> = Vec::new();
        let ghost all = self@.modules_global + self@.modules_left + self@.modules_right;
        let mut i: usize = 0;
        while i < self.modules_global.len()
            invariant
                i <= self.modules_global.len(),
                generators.len() == i,
                forall|j: int|
                    0 <= j < i ==> generators[j] == self.modules_global[j]@.event_generator(),
            decreases self.modules_global.len() - i,
        {
            generators.push(self.modules_global[i].event_generator());
            i = i + 1;
        }
        let g: usize = self.modules_global.len();
        let mut k: usize = 0;
        while k < self.modules_left.len()
            invariant
                k <= self.modules_left.len(),
                g == self.modules_global.len(),
                generators.len() == g + k,
                forall|j: int|
                    0 <= j < g ==> generators[j] == self.modules_global[j]@.event_generator(),
                forall|j: int|
                    0 <= j < k ==> generators[g + j] == self.modules_left[j]@.event_generator(),
            decreases self.modules_left.len() - k,
        {
            generators.push(self.modules_left[k].event_generator());
            k = k + 1;
        }
        let l: usize = self.modules_left.len();
        let mut n: usize = 0;
        while n < self.modules_right.len()
            invariant
                n <= self.modules_right.len(),
                g == self.modules_global.len(),
                l == self.modules_left.len(),
                generators.len() == g + l + n,
                forall|j: int|
                    0 <= j < g ==> generators[j] == self.modules_global[j]@.event_generator(),
                forall|j: int|
                    0 <= j < l ==> generators[g + j] == self.modules_left[j]@.event_generator(),
                forall|j: int|
                    0 <= j < n ==> generators[g + l + j]
                        == self.modules_right[j]@.event_generator(),
            decreases self.modules_right.len() - n,
        {
            generators.push(self.modules_right[n].event_generator());
            n = n + 1;
        }
        assert(generators@ =~= all.map_values(|m: BarModuleView| m.event_generator())) by {
            assert forall|j: int| 0 <= j < generators.len() implies generators[j]
                == all[j].event_generator() by {
                if j < g {
                    assert(all[j] == self.modules_global[j]@);
                } else if j < g + l {
                    assert(all[j] == self.modules_left[j - g]@);
                } else {
                    assert(all[j] == self.modules_right[j - g - l]@);
                }
            }
        }
        generators
    }

    /// Asks for a redraw. The caller wakes the draw loop afterwards.
    pub fn request_redraw(&mut self)
        ensures
            final(self)@ == old(self)@.request(),
    {
        self.redraw_signaled = true;
    }

    /// Closes the strip. The caller wakes the draw loop afterwards, so that
    /// it sees the flag and leaves.
    pub fn close(&mut self)
        ensures
            final(self)@ == old(self)@.close(),
    {
        self.bar_closed = true;
    }

    /// Takes the width that the tray has reported.
    pub fn set_width(&mut self, width: u32)
        ensures
            final(self)@ == old(self)@.resize(width),
    {
        self.dyn_config = self.dyn_config.with_width(width);
    }

    /// The draw loop's look at the state. Where a redraw is due, the
    /// request is taken up and the snapshot is made in this same critical
    /// section.
    pub fn poll(&mut self) -> (step: DrawStep)
        ensures
            step@ == old(self)@.decision(),
            final(self)@ == old(self)@.poll(),
    {
        if self.bar_closed {
            DrawStep::Exit
        } else if self.redraw_signaled {
            self.redraw_signaled = false;
            DrawStep::Render(
                FrameSnapshot {
                    dyn_config: self.dyn_config,
                    modules_left: copy_modules(&self.modules_left),
                    modules_right: copy_modules(&self.modules_right),
                    modules_global: copy_modules(&self.modules_global),
                },
            )
        } else {
            DrawStep::Wait
        }
    }
}

/// A copy of a list of modules.
fn copy_modules(modules: &Vec<BarModule>) -> (copy: Vec<BarModule>)
    ensures
        module_views(copy@) == module_views(modules@),
{
    let mut copy: Vec<BarModule> = Vec::new();
    let mut i: usize = 0;
    while i < modules.len()
        invariant
            i <= modules.len(),
            copy.len() == i,
            forall|j: int| 0 <= j < i ==> copy[j]@ == modules[j]@,
        decreases modules.len() - i,
    {
        copy.push(modules[i].clone());
        i = i + 1;
    }
    assert(module_views(copy@) =~= module_views(modules@));
    copy
}

/// Asks for a redraw of the strip whose state the caller holds locked. The
/// caller wakes the draw loop afterwards.
pub fn signal_bar_redraw(bar_state: &mut BarState)
    ensures
        final(bar_state)@ == old(bar_state)@.request(),
{
    bar_state.request_redraw();
}

/// Requests coalesce: asking twice before the draw loop looks is asking
/// once.
pub proof fn lemma_requests_coalesce(state: BarStateView)
    ensures
        state.request().request() == state.request(),
{
}

/// No request is lost. Where a producer has asked for a redraw and the draw
/// loop has not looked since, whatever else was done, the request is still
/// pending: the next look of the draw loop at a running strip takes it up.
pub proof fn lemma_no_lost_wakeup(state: BarStateView, ops: Seq<Operation>, i: int)
    requires
        0 <= i < ops.len(),
        ops[i] is Request,
        forall|j: int| i < j < ops.len() ==> !(ops[j] is Poll),
    ensures
        state.run(ops).redraw_signaled,
        !state.run(ops).bar_closed ==> state.run(ops).decision() is Render,
    decreases ops.len(),
{
    if i < ops.len() - 1 {
        lemma_no_lost_wakeup(state, ops.drop_last(), i);
    }
}

/// Only the draw loop takes a request up: what the producers, the tray and
/// the lifecycle controller do never clears a pending request.
pub proof fn lemma_only_the_draw_loop_clears(state: BarStateView, ops: Seq<Operation>)
    requires
        state.redraw_signaled,
        forall|j: int| 0 <= j < ops.len() ==> !(ops[j] is Poll),
    ensures
        state.run(ops).redraw_signaled,
    decreases ops.len(),
{
    if ops.len() > 0 {
        lemma_only_the_draw_loop_clears(state, ops.drop_last());
    }
}

/// No request is taken up twice. After a look of the draw loop, and until a
/// producer asks again, no look finds a redraw to do.
pub proof fn lemma_no_duplicate_consumption(state: BarStateView, ops: Seq<Operation>)
    requires
        forall|j: int| 0 <= j < ops.len() ==> !(ops[j] is Request),
    ensures
        !state.poll().run(ops).redraw_due(),
    decreases ops.len(),
{
    if ops.len() > 0 {
        lemma_no_duplicate_consumption(state, ops.drop_last());
    }
}

/// There are no more draw passes than requests, but for the one that may
/// have been pending at the start: however the producers' requests
/// interleave, each pass takes up at least one of them.
pub proof fn lemma_passes_bounded(state: BarStateView, ops: Seq<Operation>)
    ensures
        state.passes(ops) + (if state.run(ops).redraw_signaled {
            1nat
        } else {
            0nat
        }) <= requests(ops) + (if state.redraw_signaled {
            1nat
        } else {
            0nat
        }),
    decreases ops.len(),
{
    if ops.len() > 0 {
        lemma_passes_bounded(state, ops.drop_last());
    }
}

/// A closed strip stays closed, and no draw pass follows.
pub proof fn lemma_closed_is_final(state: BarStateView, ops: Seq<Operation>)
    requires
        state.bar_closed,
    ensures
        state.run(ops).bar_closed,
        state.run(ops).decision() is Exit,
        state.passes(ops) == 0,
    decreases ops.len(),
{
    if ops.len() > 0 {
        lemma_closed_is_final(state, ops.drop_last());
    }
}

/// Whatever is done to the state, the modules stay as they were and the
/// geometry changes in its width at most: no snapshot holds a new width
/// beside a height, an offset or a monitor that ever differed from the
/// first.
pub proof fn lemma_only_width_changes(state: BarStateView, ops: Seq<Operation>)
    ensures
        state.run(ops).dyn_config == (DynamicConfig {
            width: state.run(ops).dyn_config.width,
            ..state.dyn_config
        }),
        state.run(ops).modules_left == state.modules_left,
        state.run(ops).modules_right == state.modules_right,
        state.run(ops).modules_global == state.modules_global,
    decreases ops.len(),
{
    if ops.len() > 0 {
        lemma_only_width_changes(state, ops.drop_last());
    }
}

/// A width that the tray reports is in the snapshot of the next draw pass,
/// and in every later one until the tray reports another: the snapshot
/// holds the first geometry with that width.
pub proof fn lemma_resize_reaches_next_frame(
    state: BarStateView,
    ops: Seq<Operation>,
    i: int,
    width: u32,
)
    requires
        0 <= i < ops.len(),
        ops[i] == Operation::Resize(width),
        forall|j: int| i < j < ops.len() ==> !(ops[j] is Resize),
    ensures
        state.run(ops).snapshot().dyn_config == (DynamicConfig { width, ..state.dyn_config }),
        state.run(ops).redraw_due() ==> state.run(ops).decision() == DrawStepView::Render(
            FrameSnapshotView {
                dyn_config: DynamicConfig { width, ..state.dyn_config },
                modules_left: state.modules_left,
                modules_right: state.modules_right,
                modules_global: state.modules_global,
            },
        ),
    decreases ops.len(),
{
    lemma_only_width_changes(state, ops.drop_last());
    if i < ops.len() - 1 {
        lemma_resize_reaches_next_frame(state, ops.drop_last(), i, width);
    }
}

} // verus!
